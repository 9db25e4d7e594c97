//! Removing (or restoring) a post as a moderator: the order of the storage
//! work, and the point at which the change is handed to federation.

use vstd::prelude::*;
use crate::error::HandlerError;
use crate::ids::{CommunityId, PersonId, PostId};

verus! {

/// What the handler reads of a stored post.
#[derive(Clone, Copy, PartialEq, Eq, Structural, Debug)]
pub struct PostRow {
    pub id: PostId,
    pub community_id: CommunityId,
    pub creator_id: PersonId,
    pub removed: bool,
}

/// What the handler reads of a stored community.
#[derive(Clone, Copy, PartialEq, Eq, Structural, Debug)]
pub struct CommunityRow {
    pub id: CommunityId,
    pub local: bool,
}

/// The request: which post, whether to remove or restore it, and why.
#[derive(Clone, PartialEq, Eq, Debug)]
pub struct RemovePost {
    pub post_id: PostId,
    pub removed: bool,
    pub reason: String,
}

/// The moderation log entry that records the removal.
#[derive(Clone, PartialEq, Eq, Debug)]
pub struct ModRemovePostForm {
    pub mod_person_id: PersonId,
    pub post_id: PostId,
    pub removed: Option<bool>,
    pub reason: String,
}

/// Where the handler stands, with the rows it has read so far.
#[derive(Clone, Copy, PartialEq, Eq, Structural, Debug)]
pub enum RemovePostState {
    Start,
    ReadingPost,
    ReadingCommunity { orig: PostRow },
    CheckingModAction { orig: PostRow },
    CheckingHigherMod { orig: PostRow },
    UpdatingPost { orig: PostRow },
    ResolvingReports { orig: PostRow, updated: PostRow },
    WritingModLog { orig: PostRow, updated: PostRow },
    Submitting { orig: PostRow },
    BuildingResponse,
    Finished,
}

/// The outcome of the work the handler last asked for.
#[derive(Clone, Copy, PartialEq, Eq, Structural, Debug)]
pub enum RemovePostEvent {
    Begin,
    PostRead(PostRow),
    CommunityRead(CommunityRow),
    ModActionAllowed,
    HigherModConfirmed,
    PostUpdated(PostRow),
    ReportsResolved,
    ModLogWritten,
    Submitted,
    ResponseBuilt,
    Failed(HandlerError),
}

/// The work the handler asks for next.
#[derive(Clone, PartialEq, Eq, Debug)]
pub enum RemovePostAction {
    ReadPost(PostId),
    ReadCommunity(CommunityId),
    /// Check that the moderator may act in the community.
    CheckModAction { moderator: PersonId, community_id: CommunityId },
    /// Check that the moderator outranks the post's creator.
    CheckHigherMod { community_id: CommunityId, moderator: PersonId, target: PersonId },
    UpdatePost { post_id: PostId, removed: bool },
    /// Mark every open report on the post as resolved by the moderator.
    ResolveReports { post_id: PostId, resolver: PersonId },
    WriteModLog(ModRemovePostForm),
    /// Hand the committed change to the activity dispatcher.
    Submit { post: PostRow, moderator: PersonId, reason: String, removed: bool },
    BuildResponse { community_id: CommunityId, post_id: PostId },
    /// Answer the request with the response just built.
    Respond,
    Fail(HandlerError),
}

impl RemovePostState {
    /// Whether an action is outstanding whose outcome the handler awaits.
    pub open spec fn is_waiting(self) -> bool {
        !(self is Start) && !(self is Finished)
    }

    /// Whether an action is outstanding whose outcome the handler awaits.
    pub fn waiting(&self) -> (b: bool)
        ensures
            b == self.is_waiting(),
    {
        match self {
            RemovePostState::Start => false,
            RemovePostState::Finished => false,
            _ => true,
        }
    }
}

/// The handler's transition: from a state and the outcome of the last
/// action to the next state and the next action.
///
/// The post is read, then its community; the moderator's right to act and
/// rank over the creator are checked; only then is the post updated, its
/// reports resolved and the log entry written. The change is submitted to
/// federation after all of that has been confirmed. A failure reported
/// while work is outstanding ends the handler with that failure.
pub open spec fn remove_post_step(
    data: RemovePost,
    moderator: PersonId,
    state: RemovePostState,
    event: RemovePostEvent,
) -> (RemovePostState, RemovePostAction) {
    match event {
        RemovePostEvent::Failed(e) => {
            if state.is_waiting() {
                (RemovePostState::Finished, RemovePostAction::Fail(e))
            } else {
                (RemovePostState::Finished, RemovePostAction::Fail(HandlerError::UnexpectedEvent))
            }
        },
        _ => match (state, event) {
            (RemovePostState::Start, RemovePostEvent::Begin) => (
                RemovePostState::ReadingPost,
                RemovePostAction::ReadPost(data.post_id),
            ),
            (RemovePostState::ReadingPost, RemovePostEvent::PostRead(orig)) => (
                RemovePostState::ReadingCommunity { orig },
                RemovePostAction::ReadCommunity(orig.community_id),
            ),
            (RemovePostState::ReadingCommunity { orig }, RemovePostEvent::CommunityRead(community)) => (
                RemovePostState::CheckingModAction { orig },
                RemovePostAction::CheckModAction { moderator, community_id: community.id },
            ),
            (RemovePostState::CheckingModAction { orig }, RemovePostEvent::ModActionAllowed) => (
                RemovePostState::CheckingHigherMod { orig },
                RemovePostAction::CheckHigherMod {
                    community_id: orig.community_id,
                    moderator,
                    target: orig.creator_id,
                },
            ),
            (RemovePostState::CheckingHigherMod { orig }, RemovePostEvent::HigherModConfirmed) => (
                RemovePostState::UpdatingPost { orig },
                RemovePostAction::UpdatePost { post_id: data.post_id, removed: data.removed },
            ),
            (RemovePostState::UpdatingPost { orig }, RemovePostEvent::PostUpdated(updated)) => (
                RemovePostState::ResolvingReports { orig, updated },
                RemovePostAction::ResolveReports { post_id: data.post_id, resolver: moderator },
            ),
            (RemovePostState::ResolvingReports { orig, updated }, RemovePostEvent::ReportsResolved) => (
                RemovePostState::WritingModLog { orig, updated },
                RemovePostAction::WriteModLog(
                    ModRemovePostForm {
                        mod_person_id: moderator,
                        post_id: data.post_id,
                        removed: Some(data.removed),
                        reason: data.reason,
                    },
                ),
            ),
            (RemovePostState::WritingModLog { orig, updated }, RemovePostEvent::ModLogWritten) => (
                RemovePostState::Submitting { orig },
                RemovePostAction::Submit {
                    post: updated,
                    moderator,
                    reason: data.reason,
                    removed: data.removed,
                },
            ),
            (RemovePostState::Submitting { orig }, RemovePostEvent::Submitted) => (
                RemovePostState::BuildingResponse,
                RemovePostAction::BuildResponse {
                    community_id: orig.community_id,
                    post_id: data.post_id,
                },
            ),
            (RemovePostState::BuildingResponse, RemovePostEvent::ResponseBuilt) => (
                RemovePostState::Finished,
                RemovePostAction::Respond,
            ),
            _ => (RemovePostState::Finished, RemovePostAction::Fail(HandlerError::UnexpectedEvent)),
        },
    }
}

/// One step of the handler that removes or restores a post.
pub fn remove_post(
    data: &RemovePost,
    moderator: PersonId,
    state: RemovePostState,
    event: RemovePostEvent,
) -> (next: (RemovePostState, RemovePostAction))
    ensures
        next == remove_post_step(*data, moderator, state, event),
{
    match event {
        RemovePostEvent::Failed(e) => {
            if state.waiting() {
                (RemovePostState::Finished, RemovePostAction::Fail(e))
            } else {
                (RemovePostState::Finished, RemovePostAction::Fail(HandlerError::UnexpectedEvent))
            }
        },
        _ => match (state, event) {
            (RemovePostState::Start, RemovePostEvent::Begin) => (
                RemovePostState::ReadingPost,
                RemovePostAction::ReadPost(data.post_id),
            ),
            (RemovePostState::ReadingPost, RemovePostEvent::PostRead(orig)) => (
                RemovePostState::ReadingCommunity { orig },
                RemovePostAction::ReadCommunity(orig.community_id),
            ),
            (RemovePostState::ReadingCommunity { orig }, RemovePostEvent::CommunityRead(community)) => (
                RemovePostState::CheckingModAction { orig },
                RemovePostAction::CheckModAction { moderator, community_id: community.id },
            ),
            (RemovePostState::CheckingModAction { orig }, RemovePostEvent::ModActionAllowed) => (
                RemovePostState::CheckingHigherMod { orig },
                RemovePostAction::CheckHigherMod {
                    community_id: orig.community_id,
                    moderator,
                    target: orig.creator_id,
                },
            ),
            (RemovePostState::CheckingHigherMod { orig }, RemovePostEvent::HigherModConfirmed) => (
                RemovePostState::UpdatingPost { orig },
                RemovePostAction::UpdatePost { post_id: data.post_id, removed: data.removed },
            ),
            (RemovePostState::UpdatingPost { orig }, RemovePostEvent::PostUpdated(updated)) => (
                RemovePostState::ResolvingReports { orig, updated },
                RemovePostAction::ResolveReports { post_id: data.post_id, resolver: moderator },
            ),
            (RemovePostState::ResolvingReports { orig, updated }, RemovePostEvent::ReportsResolved) => (
                RemovePostState::WritingModLog { orig, updated },
                RemovePostAction::WriteModLog(
                    ModRemovePostForm {
                        mod_person_id: moderator,
                        post_id: data.post_id,
                        removed: Some(data.removed),
                        reason: data.reason.clone(),
                    },
                ),
            ),
            (RemovePostState::WritingModLog { orig, updated }, RemovePostEvent::ModLogWritten) => (
                RemovePostState::Submitting { orig },
                RemovePostAction::Submit {
                    post: updated,
                    moderator,
                    reason: data.reason.clone(),
                    removed: data.removed,
                },
            ),
            (RemovePostState::Submitting { orig }, RemovePostEvent::Submitted) => (
                RemovePostState::BuildingResponse,
                RemovePostAction::BuildResponse {
                    community_id: orig.community_id,
                    post_id: data.post_id,
                },
            ),
            (RemovePostState::BuildingResponse, RemovePostEvent::ResponseBuilt) => (
                RemovePostState::Finished,
                RemovePostAction::Respond,
            ),
            _ => (RemovePostState::Finished, RemovePostAction::Fail(HandlerError::UnexpectedEvent)),
        },
    }
}

/// The change reaches federation only after it is committed: whenever the
/// handler asks for a submission, it was waiting for the log entry, which
/// is written after the update, and the submitted post is the updated row.
pub proof fn submit_follows_commit(
    data: RemovePost,
    moderator: PersonId,
    state: RemovePostState,
    event: RemovePostEvent,
)
    requires
        remove_post_step(data, moderator, state, event).1 is Submit,
    ensures
        state is WritingModLog,
        event is ModLogWritten,
        remove_post_step(data, moderator, state, event).1 == (RemovePostAction::Submit {
            post: state->WritingModLog_updated,
            moderator,
            reason: data.reason,
            removed: data.removed,
        }),
{
}

/// The state that awaits the log entry is entered only from the state that
/// awaits the resolved reports, and that one only when the update has been
/// confirmed; both carry the updated row on unchanged.
pub proof fn commit_precedes_log(
    data: RemovePost,
    moderator: PersonId,
    state: RemovePostState,
    event: RemovePostEvent,
)
    ensures
        remove_post_step(data, moderator, state, event).0 is WritingModLog ==> state
            is ResolvingReports && state->ResolvingReports_updated == remove_post_step(
            data,
            moderator,
            state,
            event,
        ).0->WritingModLog_updated,
        remove_post_step(data, moderator, state, event).0 is ResolvingReports ==> state
            is UpdatingPost && event == RemovePostEvent::PostUpdated(
            remove_post_step(data, moderator, state, event).0->ResolvingReports_updated,
        ),
{
}

/// The post is updated only after both permission checks have passed.
pub proof fn update_follows_checks(
    data: RemovePost,
    moderator: PersonId,
    state: RemovePostState,
    event: RemovePostEvent,
)
    ensures
        remove_post_step(data, moderator, state, event).1 is UpdatePost ==> state
            is CheckingHigherMod && event is HigherModConfirmed,
        remove_post_step(data, moderator, state, event).0 is CheckingHigherMod ==> state
            is CheckingModAction && event is ModActionAllowed,
{
}

/// Once finished, the handler asks for no further work.
pub proof fn finished_is_final(
    data: RemovePost,
    moderator: PersonId,
    event: RemovePostEvent,
)
    ensures
        remove_post_step(data, moderator, RemovePostState::Finished, event) == (
            RemovePostState::Finished,
            RemovePostAction::Fail(HandlerError::UnexpectedEvent),
        ),
{
}

/// The state the handler has reached from the start after the given
/// outcomes, in order.
pub open spec fn state_after(
    data: RemovePost,
    moderator: PersonId,
    events: Seq<RemovePostEvent>,
) -> RemovePostState
    decreases events.len(),
{
    if events.len() == 0 {
        RemovePostState::Start
    } else {
        remove_post_step(
            data,
            moderator,
            state_after(data, moderator, events.drop_last()),
            events.last(),
        ).0
    }
}

/// The action the handler asks for on the last of the given outcomes.
pub open spec fn last_action(
    data: RemovePost,
    moderator: PersonId,
    events: Seq<RemovePostEvent>,
) -> RemovePostAction
    recommends
        events.len() > 0,
{
    remove_post_step(
        data,
        moderator,
        state_after(data, moderator, events.drop_last()),
        events.last(),
    ).1
}

/// What the state remembers has happened: a state past the permission
/// checks has seen both pass, and a state that carries an updated row has
/// seen storage confirm that very row.
pub open spec fn history_holds(state: RemovePostState, events: Seq<RemovePostEvent>) -> bool {
    &&& (state is UpdatingPost || state is ResolvingReports || state is WritingModLog)
        ==> events.contains(RemovePostEvent::ModActionAllowed) && events.contains(
        RemovePostEvent::HigherModConfirmed,
    )
    &&& state is CheckingHigherMod ==> events.contains(RemovePostEvent::ModActionAllowed)
    &&& state is ResolvingReports ==> events.contains(
        RemovePostEvent::PostUpdated(state->ResolvingReports_updated),
    )
    &&& state is WritingModLog ==> events.contains(
        RemovePostEvent::PostUpdated(state->WritingModLog_updated),
    )
}

/// Whatever outcomes are reported, the state the handler reaches
/// remembers only what has happened.
pub proof fn history_is_kept(data: RemovePost, moderator: PersonId, events: Seq<RemovePostEvent>)
    ensures
        history_holds(state_after(data, moderator, events), events),
    decreases events.len(),
{
    if events.len() > 0 {
        let before = events.drop_last();
        history_is_kept(data, moderator, before);
        assert(events.last() == events[events.len() - 1]);
        assert forall|e: RemovePostEvent| before.contains(e) implies events.contains(e) by {
            let i = choose|i: int| 0 <= i < before.len() && before[i] == e;
            assert(events[i] == e);
        }
        assert(events.contains(events.last()));
    }
}

/// In every run of the handler, from the start and whatever outcomes are
/// reported, a submission to federation comes only after both permission
/// checks have passed and storage has confirmed the update, and it
/// carries the row that storage confirmed.
pub proof fn submission_needs_a_committed_update(
    data: RemovePost,
    moderator: PersonId,
    events: Seq<RemovePostEvent>,
)
    requires
        events.len() > 0,
        last_action(data, moderator, events) is Submit,
    ensures
        events.drop_last().contains(
            RemovePostEvent::PostUpdated(last_action(data, moderator, events)->Submit_post),
        ),
        events.drop_last().contains(RemovePostEvent::ModActionAllowed),
        events.drop_last().contains(RemovePostEvent::HigherModConfirmed),
{
    history_is_kept(data, moderator, events.drop_last());
}

} // verus!
