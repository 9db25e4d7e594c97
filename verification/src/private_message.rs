//! Deleting (or restoring) a private message: the order of the storage
//! work, the permission rule, and the point at which the change is handed
//! to federation.

use vstd::prelude::*;
use crate::error::HandlerError;
use crate::ids::{PersonId, PrivateMessageId};

verus! {

/// What the handler reads of a stored private message.
#[derive(Clone, Copy, PartialEq, Eq, Structural, Debug)]
pub struct PrivateMessageRow {
    pub id: PrivateMessageId,
    pub creator_id: PersonId,
    pub recipient_id: PersonId,
    pub deleted: bool,
}

/// The request: which message, and whether to delete or restore it.
#[derive(Clone, Copy, PartialEq, Eq, Structural, Debug)]
pub struct DeletePrivateMessage {
    pub private_message_id: PrivateMessageId,
    pub deleted: bool,
}

/// Where the handler stands.
#[derive(Clone, Copy, PartialEq, Eq, Structural, Debug)]
pub enum DeleteMessageState {
    Start,
    ReadingMessage,
    UpdatingMessage,
    Submitting,
    ReadingView,
    Finished,
}

/// The outcome of the work the handler last asked for.
#[derive(Clone, Copy, PartialEq, Eq, Structural, Debug)]
pub enum DeleteMessageEvent {
    Begin,
    MessageRead(PrivateMessageRow),
    MessageUpdated(PrivateMessageRow),
    Submitted,
    ViewRead,
    Failed(HandlerError),
}

/// The work the handler asks for next.
#[derive(Clone, Copy, PartialEq, Eq, Structural, Debug)]
pub enum DeleteMessageAction {
    ReadMessage(PrivateMessageId),
    UpdateMessage { id: PrivateMessageId, deleted: bool },
    /// Hand the committed change to the activity dispatcher.
    Submit { sender: PersonId, message: PrivateMessageRow, deleted: bool },
    ReadView(PrivateMessageId),
    /// Answer the request with the view just read.
    Respond,
    Fail(HandlerError),
}

/// The handler's transition: from a state and the outcome of the last
/// action to the next state and the next action.
///
/// A failure reported while work is outstanding ends the handler with that
/// failure. A message may only be changed by its creator. The change is
/// submitted to federation only after storage has confirmed it.
pub open spec fn delete_private_message_step(
    data: DeletePrivateMessage,
    requester: PersonId,
    state: DeleteMessageState,
    event: DeleteMessageEvent,
) -> (DeleteMessageState, DeleteMessageAction) {
    match (state, event) {
        (DeleteMessageState::Start, DeleteMessageEvent::Begin) => (
            DeleteMessageState::ReadingMessage,
            DeleteMessageAction::ReadMessage(data.private_message_id),
        ),
        (DeleteMessageState::ReadingMessage, DeleteMessageEvent::MessageRead(orig)) => {
            if requester != orig.creator_id {
                (
                    DeleteMessageState::Finished,
                    DeleteMessageAction::Fail(HandlerError::EditPrivateMessageNotAllowed),
                )
            } else {
                (
                    DeleteMessageState::UpdatingMessage,
                    DeleteMessageAction::UpdateMessage {
                        id: data.private_message_id,
                        deleted: data.deleted,
                    },
                )
            }
        },
        (DeleteMessageState::UpdatingMessage, DeleteMessageEvent::MessageUpdated(updated)) => (
            DeleteMessageState::Submitting,
            DeleteMessageAction::Submit {
                sender: requester,
                message: updated,
                deleted: data.deleted,
            },
        ),
        (DeleteMessageState::Submitting, DeleteMessageEvent::Submitted) => (
            DeleteMessageState::ReadingView,
            DeleteMessageAction::ReadView(data.private_message_id),
        ),
        (DeleteMessageState::ReadingView, DeleteMessageEvent::ViewRead) => (
            DeleteMessageState::Finished,
            DeleteMessageAction::Respond,
        ),
        (DeleteMessageState::ReadingMessage, DeleteMessageEvent::Failed(e))
        | (DeleteMessageState::UpdatingMessage, DeleteMessageEvent::Failed(e))
        | (DeleteMessageState::Submitting, DeleteMessageEvent::Failed(e))
        | (DeleteMessageState::ReadingView, DeleteMessageEvent::Failed(e)) => (
            DeleteMessageState::Finished,
            DeleteMessageAction::Fail(e),
        ),
        _ => (
            DeleteMessageState::Finished,
            DeleteMessageAction::Fail(HandlerError::UnexpectedEvent),
        ),
    }
}

/// One step of the handler that deletes or restores a private message.
pub fn delete_private_message(
    data: &DeletePrivateMessage,
    requester: PersonId,
    state: DeleteMessageState,
    event: DeleteMessageEvent,
) -> (next: (DeleteMessageState, DeleteMessageAction))
    ensures
        next == delete_private_message_step(*data, requester, state, event),
{
    match (state, event) {
        (DeleteMessageState::Start, DeleteMessageEvent::Begin) => (
            DeleteMessageState::ReadingMessage,
            DeleteMessageAction::ReadMessage(data.private_message_id),
        ),
        (DeleteMessageState::ReadingMessage, DeleteMessageEvent::MessageRead(orig)) => {
            if requester != orig.creator_id {
                (
                    DeleteMessageState::Finished,
                    DeleteMessageAction::Fail(HandlerError::EditPrivateMessageNotAllowed),
                )
            } else {
                (
                    DeleteMessageState::UpdatingMessage,
                    DeleteMessageAction::UpdateMessage {
                        id: data.private_message_id,
                        deleted: data.deleted,
                    },
                )
            }
        },
        (DeleteMessageState::UpdatingMessage, DeleteMessageEvent::MessageUpdated(updated)) => (
            DeleteMessageState::Submitting,
            DeleteMessageAction::Submit {
                sender: requester,
                message: updated,
                deleted: data.deleted,
            },
        ),
        (DeleteMessageState::Submitting, DeleteMessageEvent::Submitted) => (
            DeleteMessageState::ReadingView,
            DeleteMessageAction::ReadView(data.private_message_id),
        ),
        (DeleteMessageState::ReadingView, DeleteMessageEvent::ViewRead) => (
            DeleteMessageState::Finished,
            DeleteMessageAction::Respond,
        ),
        (DeleteMessageState::Start, DeleteMessageEvent::Failed(_))
        | (DeleteMessageState::Finished, DeleteMessageEvent::Failed(_)) => (
            DeleteMessageState::Finished,
            DeleteMessageAction::Fail(HandlerError::UnexpectedEvent),
        ),
        (_, DeleteMessageEvent::Failed(e)) => (
            DeleteMessageState::Finished,
            DeleteMessageAction::Fail(e),
        ),
        _ => (
            DeleteMessageState::Finished,
            DeleteMessageAction::Fail(HandlerError::UnexpectedEvent),
        ),
    }
}

/// The change reaches federation only after storage has confirmed it, and
/// only on behalf of the message's creator: whenever the handler asks for
/// a submission, it was waiting for the update and the update's outcome
/// has just arrived; the submitted message is the updated row.
pub proof fn submit_follows_commit(
    data: DeletePrivateMessage,
    requester: PersonId,
    state: DeleteMessageState,
    event: DeleteMessageEvent,
)
    requires
        delete_private_message_step(data, requester, state, event).1 is Submit,
    ensures
        state == DeleteMessageState::UpdatingMessage,
        event is MessageUpdated,
        delete_private_message_step(data, requester, state, event).1
            == (DeleteMessageAction::Submit {
                sender: requester,
                message: event->MessageUpdated_0,
                deleted: data.deleted,
            }),
{
}

/// An update is asked for only when the requester created the message.
pub proof fn update_only_by_creator(
    data: DeletePrivateMessage,
    requester: PersonId,
    state: DeleteMessageState,
    event: DeleteMessageEvent,
)
    requires
        delete_private_message_step(data, requester, state, event).1 is UpdateMessage,
    ensures
        event is MessageRead,
        event->MessageRead_0.creator_id == requester,
{
}

/// The state the handler has reached from the start after the given
/// outcomes, in order.
pub open spec fn state_after(
    data: DeletePrivateMessage,
    requester: PersonId,
    events: Seq<DeleteMessageEvent>,
) -> DeleteMessageState
    decreases events.len(),
{
    if events.len() == 0 {
        DeleteMessageState::Start
    } else {
        delete_private_message_step(
            data,
            requester,
            state_after(data, requester, events.drop_last()),
            events.last(),
        ).0
    }
}

/// The action the handler asks for on the last of the given outcomes.
pub open spec fn last_action(
    data: DeletePrivateMessage,
    requester: PersonId,
    events: Seq<DeleteMessageEvent>,
) -> DeleteMessageAction
    recommends
        events.len() > 0,
{
    delete_private_message_step(
        data,
        requester,
        state_after(data, requester, events.drop_last()),
        events.last(),
    ).1
}

/// Some outcome among `events` is a message read whose creator is
/// `requester`.
pub open spec fn creator_was_seen(events: Seq<DeleteMessageEvent>, requester: PersonId) -> bool {
    exists|i: int|
        0 <= i < events.len() && (#[trigger] events[i]) is MessageRead
            && events[i]->MessageRead_0.creator_id == requester
}

/// The handler waits for the update only after it has read a message that
/// the requester created.
pub proof fn update_is_the_creators(
    data: DeletePrivateMessage,
    requester: PersonId,
    events: Seq<DeleteMessageEvent>,
)
    ensures
        state_after(data, requester, events) is UpdatingMessage ==> creator_was_seen(
            events,
            requester,
        ),
{
    if state_after(data, requester, events) is UpdatingMessage {
        assert(events.len() > 0);
        assert(events[events.len() - 1] == events.last());
    }
}

/// In every run of the handler, from the start and whatever outcomes are
/// reported, a submission to federation comes only after the requester
/// was found to be the message's creator and storage has confirmed the
/// update, and it carries the row that storage confirmed.
pub proof fn submission_needs_a_committed_update(
    data: DeletePrivateMessage,
    requester: PersonId,
    events: Seq<DeleteMessageEvent>,
)
    requires
        events.len() > 0,
        last_action(data, requester, events) is Submit,
    ensures
        events.last() == DeleteMessageEvent::MessageUpdated(
            last_action(data, requester, events)->Submit_message,
        ),
        creator_was_seen(events.drop_last(), requester),
{
    update_is_the_creators(data, requester, events.drop_last());
}

} // verus!
