//! Error kinds. All of them are recoverable by the caller; none ends the
//! process.

use vstd::prelude::*;

verus! {

/// Why an identifier could not be resolved to a domain object.
#[derive(Clone, Copy, PartialEq, Eq, Structural, Debug)]
pub enum ResolveError {
    /// A local handle names nothing in local storage.
    NotFound,
    /// The remote server did not answer in time, or not at all.
    RemoteUnreachable,
    /// The remote answer was malformed, too large, or declared another
    /// identity than the one asked for.
    InvalidPayload,
    /// The remote object is of another kind than the caller expects.
    WrongType,
    /// A fetch was needed and the caller forbade it.
    ResolutionDisabled,
}

/// The dispatch queue is at capacity; the caller may try again later.
#[derive(Clone, Copy, PartialEq, Eq, Structural, Debug)]
pub struct DispatchQueueFull;

/// Why a request handler stopped without a response.
#[derive(Clone, Copy, PartialEq, Eq, Structural, Debug)]
pub enum HandlerError {
    /// A community was asked for by neither id nor name.
    NoIdGiven,
    /// The instance is private and the request is anonymous.
    InstanceIsPrivate,
    /// Only the creator of a private message may delete it.
    EditPrivateMessageNotAllowed,
    /// The requester lacks the moderation rights that the action needs.
    NotAModerator,
    /// The object resolver failed.
    Resolve(ResolveError),
    /// The dispatcher refused the activity.
    QueueFull,
    /// Local storage failed or held no such row.
    Storage,
    /// An outcome was reported that the handler was not waiting for.
    UnexpectedEvent,
}

} // verus!
