//! A container lifecycle orchestration client.
//!
//! The library sequences the pull -> create -> start -> wait -> cleanup
//! workflow against a container runtime daemon. The daemon itself is an
//! external service; the decisions the client makes (which call to issue
//! next, how to validate input, how to recover from a partial failure)
//! are modelled and verified here, while the process that owns the
//! connection performs the actual remote calls and feeds the outcomes
//! back in as events.

use vstd::prelude::*;

pub mod container;
pub mod errors;
pub mod image;
pub mod model;
pub mod orchestrator;
pub mod platform;
pub mod text;

verus! {

/// The namespace every request is scoped to when the caller names none.
pub fn default_namespace() -> (r: String)
    ensures
        r@ == "default"@,
{
    "default".to_owned()
}

/// The daemon socket address used when the caller names none.
pub fn default_socket_address() -> (r: String)
    ensures
        r@ == "/run/containerd/containerd.sock"@,
{
    "/run/containerd/containerd.sock".to_owned()
}

/// Rejects a malformed daemon address before any connection is tried:
/// an empty address can never name an endpoint.
pub fn validate_socket_address(address: &str) -> (r: Result<(), errors::LifecycleError>)
    ensures
        r is Ok <==> address@.len() > 0,
        r is Err ==> r->Err_0 == errors::LifecycleError::ConnectionError,
{
    if address.is_empty() {
        Err(errors::LifecycleError::ConnectionError)
    } else {
        Ok(())
    }
}

} // verus!
