//! The error taxonomy of the orchestration client.

use vstd::prelude::*;

verus! {

/// Every failure a workflow step can surface.
///
/// The variants mirror the failure categories of the runtime's
/// lifecycle interface: transport failures, image transfer failures,
/// caller input errors, ordering violations, and missing records.
#[derive(Clone, Copy, Debug, PartialEq, Eq, Structural)]
pub enum LifecycleError {
    /// The transport endpoint is unreachable or the address is malformed.
    ConnectionError,
    /// Registry, network, or digest failure while transferring an image.
    PullError,
    /// A container spec is missing a required field or is unparseable.
    InvalidSpecError,
    /// A container with the requested id already exists in the namespace.
    DuplicateContainerError,
    /// A task is already bound to the requested container.
    DuplicateTaskError,
    /// A container cannot be deleted while a task is still bound to it.
    ContainerBusyError,
    /// A task cannot be deleted before it has exited.
    TaskStillRunningError,
    /// The named record does not exist in the namespace.
    NotFoundError,
    /// A task operation named a container that does not exist.
    ContainerNotFoundError,
    /// A task operation was issued in the wrong lifecycle state.
    InvalidStateError,
}

impl LifecycleError {
    /// During cleanup a missing record means the work is already done,
    /// so the orchestrator treats this error as satisfied rather than fatal.
    pub open spec fn spec_benign_during_cleanup(self) -> bool {
        self is NotFoundError
    }

    /// Whether the orchestrator may swallow this error while cleaning up.
    pub fn benign_during_cleanup(&self) -> (r: bool)
        ensures
            r == self.spec_benign_during_cleanup(),
    {
        matches!(self, LifecycleError::NotFoundError)
    }

    /// The caller may retry only image transfer failures; everything else
    /// is either fatal input or an ordering bug.
    pub open spec fn spec_retryable(self) -> bool {
        self is PullError
    }

    /// Whether a caller-side retry with backoff is a sensible response.
    pub fn retryable(&self) -> (r: bool)
        ensures
            r == self.spec_retryable(),
    {
        matches!(self, LifecycleError::PullError)
    }

    /// A short diagnostic text for the error.
    pub fn message(&self) -> String {
        match self {
            LifecycleError::ConnectionError => "transport endpoint unreachable".to_owned(),
            LifecycleError::PullError => "image transfer failed".to_owned(),
            LifecycleError::InvalidSpecError => "container spec is invalid".to_owned(),
            LifecycleError::DuplicateContainerError => "container id already exists".to_owned(),
            LifecycleError::DuplicateTaskError => "a task is already bound to the container".to_owned(),
            LifecycleError::ContainerBusyError => "container still has a task bound to it".to_owned(),
            LifecycleError::TaskStillRunningError => "task has not exited yet".to_owned(),
            LifecycleError::NotFoundError => "record not found".to_owned(),
            LifecycleError::ContainerNotFoundError => "container not found".to_owned(),
            LifecycleError::InvalidStateError => "task is not in the required state".to_owned(),
        }
    }
}

} // verus!
