//! Container specifications.
//!
//! A container spec names everything the runtime needs to create a
//! container record: the id, the image, the runtime implementation,
//! the process arguments, and the root filesystem. Required fields are
//! checked eagerly, before anything is submitted to the daemon.

use vstd::prelude::*;
use crate::errors::LifecycleError;
use crate::image::ImageReference;

verus! {

/// Paths of the files a task's standard streams are redirected to.
#[derive(Clone)]
pub struct StdioPaths {
    pub stdin: String,
    pub stdout: String,
    pub stderr: String,
}

/// A container spec at the specification level.
#[verifier::ext_equal]
pub struct ContainerSpecView {
    pub id: Seq<char>,
    pub image: Seq<char>,
    pub runtime: Seq<char>,
    pub args: Seq<Seq<char>>,
    pub root_path: Seq<char>,
    pub root_readonly: bool,
}

impl ContainerSpecView {
    /// The required fields are present: a non-empty id, at least one
    /// process argument, and a root filesystem path.
    pub open spec fn valid(self) -> bool {
        &&& self.id.len() > 0
        &&& self.args.len() > 0
        &&& self.root_path.len() > 0
    }
}

/// The immutable description of a container to create.
#[derive(Clone)]
pub struct ContainerSpec {
    /// The container id, unique within the namespace.
    pub id: String,
    /// The image the container is created from.
    pub image: ImageReference,
    /// The runtime implementation that executes the container.
    pub runtime_name: String,
    /// The process arguments, in order.
    pub process_args: Vec<String>,
    /// The root filesystem path inside the bundle.
    pub root_path: String,
    /// Whether the root filesystem is mounted read-only.
    pub root_readonly: bool,
}

impl View for ContainerSpec {
    type V = ContainerSpecView;

    open spec fn view(&self) -> ContainerSpecView {
        ContainerSpecView {
            id: self.id@,
            image: self.image.reference@,
            runtime: self.runtime_name@,
            args: self.process_args.deep_view(),
            root_path: self.root_path@,
            root_readonly: self.root_readonly,
        }
    }
}

impl ContainerSpec {
    /// Whether the required fields are present.
    pub open spec fn spec_valid(self) -> bool {
        self@.valid()
    }

    /// Checks the required fields eagerly, rejecting an incomplete spec
    /// with `InvalidSpecError` instead of deferring to the remote API.
    pub fn validate(&self) -> (r: Result<(), LifecycleError>)
        ensures
            r is Ok <==> self.spec_valid(),
            r is Err ==> r->Err_0 == LifecycleError::InvalidSpecError,
    {
        if self.id.as_str().is_empty() || self.process_args.is_empty()
            || self.root_path.as_str().is_empty() {
            Err(LifecycleError::InvalidSpecError)
        } else {
            Ok(())
        }
    }
}

} // verus!
