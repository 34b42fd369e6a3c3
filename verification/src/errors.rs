//! Error taxonomy: configuration/resolution errors, the classifier that maps
//! transport-level failures to the host's invocation-error kinds, and the
//! operator-facing message renderings.

use vstd::prelude::*;
use vstd::string::StringExecFns;

verus! {

/// A failed attempt to resolve an interface reference to a destination.
/// Resolution failures are recoverable: they are returned to the caller and
/// never abort the host.
#[derive(Debug, PartialEq, Eq)]
pub enum ResolveError {
    /// The link graph has no link under the active link name.
    LinkNotFound { link_name: String, target_instance: String },
    /// The link exists but maps no destination for this interface.
    TargetNotFound { link_name: String, instance: String, func: String, component_id: String },
}

/// Message for a missing link name.
pub open spec fn link_not_found_message(link_name: Seq<char>, target_instance: Seq<char>) -> Seq<
    char,
> {
    "link `"@ + link_name + "` not found for instance `"@ + target_instance + "`"@
}

/// Message for a link with no destination for the interface, naming the call
/// site and the component so an operator can fix the configuration.
pub open spec fn target_not_found_message(
    link_name: Seq<char>,
    instance: Seq<char>,
    func: Seq<char>,
    component_id: Seq<char>,
) -> Seq<char> {
    "failed to call `"@ + func + "` in instance `"@ + instance
        + "` (failed to find a configured link with name `"@ + link_name + "` from component `"@
        + component_id + "`, please check your configuration)"@
}

/// The message of a resolution error.
pub open spec fn resolve_error_message(e: ResolveError) -> Seq<char> {
    match e {
        ResolveError::LinkNotFound { link_name, target_instance } => link_not_found_message(
            link_name@,
            target_instance@,
        ),
        ResolveError::TargetNotFound { link_name, instance, func, component_id } => {
            target_not_found_message(link_name@, instance@, func@, component_id@)
        },
    }
}

impl ResolveError {
    /// Render the operator-facing message.
    pub fn message(&self) -> (r: String)
        ensures
            r@ == resolve_error_message(*self),
    {
        match self {
            ResolveError::LinkNotFound { link_name, target_instance } => {
                let mut s = String::from_str("link `");
                s.append(link_name.as_str());
                s.append("` not found for instance `");
                s.append(target_instance.as_str());
                s.append("`");
                s
            },
            ResolveError::TargetNotFound { link_name, instance, func, component_id } => {
                let mut s = String::from_str("failed to call `");
                s.append(func.as_str());
                s.append("` in instance `");
                s.append(instance.as_str());
                s.append("` (failed to find a configured link with name `");
                s.append(link_name.as_str());
                s.append("` from component `");
                s.append(component_id.as_str());
                s.append("`, please check your configuration)");
                s
            },
        }
    }
}

/// A low-level failure of the remote transport or of the in-process stream
/// bridge, as introspected from the error a call returned.
pub enum TransportFailure {
    /// The connection to the destination does not exist (the peer closed its
    /// end, or the transport was never connected).
    NotConnected,
    /// Any other transport or I/O fault.
    Other,
}

/// The kind the host's invocation-error reporting consumes.
#[derive(Clone, Copy, Debug, PartialEq, Eq)]
pub enum InvocationErrorKind {
    /// The destination is unreachable or unknown.
    NotFound,
    /// An unexpected runtime fault.
    Trap,
}

/// Classify a transport-level failure: a connection-level "not connected"
/// condition means the destination is unknown; everything else is an
/// unexpected fault.  This governs operator-facing diagnostics only.
pub fn classify_invocation_error(f: &TransportFailure) -> (k: InvocationErrorKind)
    ensures
        k is NotFound <==> f is NotConnected,
        k is Trap <==> f is Other,
{
    match f {
        TransportFailure::NotConnected => InvocationErrorKind::NotFound,
        TransportFailure::Other => InvocationErrorKind::Trap,
    }
}

} // verus!
