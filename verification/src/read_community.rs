//! Reading a community by id or by name: the order of the storage work,
//! the checks that come before it, and the use of the object resolver for
//! a community that is only known by name.

use vstd::prelude::*;
use crate::error::HandlerError;
use crate::ids::{CommunityId, PersonId};

verus! {

/// The request: a community by id, or else by name.
#[derive(Clone, PartialEq, Eq, Debug)]
pub struct GetCommunity {
    pub id: Option<CommunityId>,
    pub name: Option<String>,
}

/// What the handler reads of the local site's settings.
#[derive(Clone, Copy, PartialEq, Eq, Structural, Debug)]
pub struct LocalSiteRow {
    pub private_instance: bool,
}

/// Where the handler stands.
#[derive(Clone, Copy, PartialEq, Eq, Structural, Debug)]
pub enum GetCommunityState {
    Start,
    ReadingLocalSite,
    Resolving,
    CheckingModOrAdmin { community_id: CommunityId },
    ReadingView { community_id: CommunityId },
    /// Holds the id that the view read carries.
    ReadingModerators { community_id: CommunityId },
    ReadingSite { community_id: CommunityId },
    ReadingLanguages,
    Finished,
}

/// The outcome of the work the handler last asked for.
#[derive(Clone, Copy, PartialEq, Eq, Structural, Debug)]
pub enum GetCommunityEvent {
    Begin,
    LocalSiteRead(LocalSiteRow),
    /// The resolver found the community of the given name.
    Resolved(CommunityId),
    ModOrAdminConfirmed,
    /// The community's view was read; it holds this id.
    ViewRead(CommunityId),
    ModeratorsRead,
    SiteRead,
    LanguagesRead,
    Failed(HandlerError),
}

/// The work the handler asks for next.
#[derive(Clone, PartialEq, Eq, Debug)]
pub enum GetCommunityAction {
    ReadLocalSite,
    /// Resolve a community name through the object resolver.
    Resolve { name: String, allow_remote_fetch: bool },
    CheckModOrAdmin { requester: Option<PersonId>, community_id: CommunityId },
    ReadView { community_id: CommunityId, requester: Option<PersonId>, is_mod_or_admin: bool },
    ReadModerators(CommunityId),
    /// Read the site of the community whose view was read.
    ReadSiteForActor(CommunityId),
    ReadLanguages(CommunityId),
    /// Answer the request with what was read.
    Respond,
    Fail(HandlerError),
}

/// A private instance answers no anonymous request.
pub open spec fn private_instance_refuses(requester: Option<PersonId>, private_instance: bool) -> bool {
    requester is None && private_instance
}

/// Refuses an anonymous request on a private instance.
pub fn check_private_instance(requester: Option<PersonId>, private_instance: bool) -> (r: Result<
    (),
    HandlerError,
>)
    ensures
        r is Err <==> private_instance_refuses(requester, private_instance),
        r is Err ==> r == Err::<(), HandlerError>(HandlerError::InstanceIsPrivate),
{
    if requester.is_none() && private_instance {
        Err(HandlerError::InstanceIsPrivate)
    } else {
        Ok(())
    }
}

/// The handler's transition: from a state and the outcome of the last
/// action to the next state and the next action.
///
/// The local site is read first. A request that names neither id nor name
/// is refused, then an anonymous request on a private instance. A
/// community given by id is taken as it is; one given by name only is
/// resolved, and the resolver may fetch it from its home server. Whether
/// the requester moderates the community is asked next, and a failure of
/// that question counts as "no" rather than as a failure of the request.
/// Any other failure ends the handler with that failure.
pub open spec fn get_community_step(
    data: GetCommunity,
    requester: Option<PersonId>,
    state: GetCommunityState,
    event: GetCommunityEvent,
) -> (GetCommunityState, GetCommunityAction) {
    match event {
        GetCommunityEvent::Failed(e) => match state {
            GetCommunityState::Start | GetCommunityState::Finished => (
                GetCommunityState::Finished,
                GetCommunityAction::Fail(HandlerError::UnexpectedEvent),
            ),
            GetCommunityState::CheckingModOrAdmin { community_id } => (
                GetCommunityState::ReadingView { community_id },
                GetCommunityAction::ReadView { community_id, requester, is_mod_or_admin: false },
            ),
            _ => (GetCommunityState::Finished, GetCommunityAction::Fail(e)),
        },
        _ => match (state, event) {
            (GetCommunityState::Start, GetCommunityEvent::Begin) => (
                GetCommunityState::ReadingLocalSite,
                GetCommunityAction::ReadLocalSite,
            ),
            (GetCommunityState::ReadingLocalSite, GetCommunityEvent::LocalSiteRead(site)) => {
                if data.name.is_none() && data.id.is_none() {
                    (GetCommunityState::Finished, GetCommunityAction::Fail(HandlerError::NoIdGiven))
                } else if private_instance_refuses(requester, site.private_instance) {
                    (
                        GetCommunityState::Finished,
                        GetCommunityAction::Fail(HandlerError::InstanceIsPrivate),
                    )
                } else {
                    match (data.id, data.name) {
                        (Some(id), _) => (
                            GetCommunityState::CheckingModOrAdmin { community_id: id },
                            GetCommunityAction::CheckModOrAdmin { requester, community_id: id },
                        ),
                        (None, Some(name)) => (
                            GetCommunityState::Resolving,
                            GetCommunityAction::Resolve { name: name, allow_remote_fetch: true },
                        ),
                        (None, None) => (
                            GetCommunityState::Finished,
                            GetCommunityAction::Fail(HandlerError::NoIdGiven),
                        ),
                    }
                }
            },
            (GetCommunityState::Resolving, GetCommunityEvent::Resolved(id)) => (
                GetCommunityState::CheckingModOrAdmin { community_id: id },
                GetCommunityAction::CheckModOrAdmin { requester, community_id: id },
            ),
            (
                GetCommunityState::CheckingModOrAdmin { community_id },
                GetCommunityEvent::ModOrAdminConfirmed,
            ) => (
                GetCommunityState::ReadingView { community_id },
                GetCommunityAction::ReadView { community_id, requester, is_mod_or_admin: true },
            ),
            (GetCommunityState::ReadingView { community_id }, GetCommunityEvent::ViewRead(id)) => (
                GetCommunityState::ReadingModerators { community_id: id },
                GetCommunityAction::ReadModerators(community_id),
            ),
            (
                GetCommunityState::ReadingModerators { community_id },
                GetCommunityEvent::ModeratorsRead,
            ) => (
                GetCommunityState::ReadingSite { community_id },
                GetCommunityAction::ReadSiteForActor(community_id),
            ),
            (GetCommunityState::ReadingSite { community_id }, GetCommunityEvent::SiteRead) => (
                GetCommunityState::ReadingLanguages,
                GetCommunityAction::ReadLanguages(community_id),
            ),
            (GetCommunityState::ReadingLanguages, GetCommunityEvent::LanguagesRead) => (
                GetCommunityState::Finished,
                GetCommunityAction::Respond,
            ),
            _ => (
                GetCommunityState::Finished,
                GetCommunityAction::Fail(HandlerError::UnexpectedEvent),
            ),
        },
    }
}

/// One step of the handler that reads a community.
pub fn get_community(
    data: &GetCommunity,
    requester: Option<PersonId>,
    state: GetCommunityState,
    event: GetCommunityEvent,
) -> (next: (GetCommunityState, GetCommunityAction))
    ensures
        next == get_community_step(*data, requester, state, event),
{
    match event {
        GetCommunityEvent::Failed(e) => match state {
            GetCommunityState::Start | GetCommunityState::Finished => (
                GetCommunityState::Finished,
                GetCommunityAction::Fail(HandlerError::UnexpectedEvent),
            ),
            GetCommunityState::CheckingModOrAdmin { community_id } => (
                GetCommunityState::ReadingView { community_id },
                GetCommunityAction::ReadView { community_id, requester, is_mod_or_admin: false },
            ),
            _ => (GetCommunityState::Finished, GetCommunityAction::Fail(e)),
        },
        _ => match (state, event) {
            (GetCommunityState::Start, GetCommunityEvent::Begin) => (
                GetCommunityState::ReadingLocalSite,
                GetCommunityAction::ReadLocalSite,
            ),
            (GetCommunityState::ReadingLocalSite, GetCommunityEvent::LocalSiteRead(site)) => {
                if data.name.is_none() && data.id.is_none() {
                    (GetCommunityState::Finished, GetCommunityAction::Fail(HandlerError::NoIdGiven))
                } else if check_private_instance(requester, site.private_instance).is_err() {
                    (
                        GetCommunityState::Finished,
                        GetCommunityAction::Fail(HandlerError::InstanceIsPrivate),
                    )
                } else {
                    match (data.id, &data.name) {
                        (Some(id), _) => (
                            GetCommunityState::CheckingModOrAdmin { community_id: id },
                            GetCommunityAction::CheckModOrAdmin { requester, community_id: id },
                        ),
                        (None, Some(name)) => (
                            GetCommunityState::Resolving,
                            GetCommunityAction::Resolve { name: name.clone(), allow_remote_fetch: true },
                        ),
                        (None, None) => (
                            GetCommunityState::Finished,
                            GetCommunityAction::Fail(HandlerError::NoIdGiven),
                        ),
                    }
                }
            },
            (GetCommunityState::Resolving, GetCommunityEvent::Resolved(id)) => (
                GetCommunityState::CheckingModOrAdmin { community_id: id },
                GetCommunityAction::CheckModOrAdmin { requester, community_id: id },
            ),
            (
                GetCommunityState::CheckingModOrAdmin { community_id },
                GetCommunityEvent::ModOrAdminConfirmed,
            ) => (
                GetCommunityState::ReadingView { community_id },
                GetCommunityAction::ReadView { community_id, requester, is_mod_or_admin: true },
            ),
            (GetCommunityState::ReadingView { community_id }, GetCommunityEvent::ViewRead(id)) => (
                GetCommunityState::ReadingModerators { community_id: id },
                GetCommunityAction::ReadModerators(community_id),
            ),
            (
                GetCommunityState::ReadingModerators { community_id },
                GetCommunityEvent::ModeratorsRead,
            ) => (
                GetCommunityState::ReadingSite { community_id },
                GetCommunityAction::ReadSiteForActor(community_id),
            ),
            (GetCommunityState::ReadingSite { community_id }, GetCommunityEvent::SiteRead) => (
                GetCommunityState::ReadingLanguages,
                GetCommunityAction::ReadLanguages(community_id),
            ),
            (GetCommunityState::ReadingLanguages, GetCommunityEvent::LanguagesRead) => (
                GetCommunityState::Finished,
                GetCommunityAction::Respond,
            ),
            _ => (
                GetCommunityState::Finished,
                GetCommunityAction::Fail(HandlerError::UnexpectedEvent),
            ),
        },
    }
}

/// The resolver is asked only for a community that the request names
/// without an id, and only after the instance has admitted the requester.
pub proof fn resolve_only_by_name(
    data: GetCommunity,
    requester: Option<PersonId>,
    state: GetCommunityState,
    event: GetCommunityEvent,
)
    requires
        get_community_step(data, requester, state, event).1 is Resolve,
    ensures
        data.id is None,
        data.name is Some,
        state == GetCommunityState::ReadingLocalSite,
        event is LocalSiteRead,
        !private_instance_refuses(requester, event->LocalSiteRead_0.private_instance),
        get_community_step(data, requester, state, event).1 == (GetCommunityAction::Resolve {
            name: data.name->Some_0,
            allow_remote_fetch: true,
        }),
{
}

/// An anonymous requester never gets past the local site's settings on a
/// private instance: whatever the request names, the handler fails.
pub proof fn private_instance_is_closed(
    data: GetCommunity,
    site: LocalSiteRow,
)
    requires
        site.private_instance,
    ensures
        get_community_step(
            data,
            None,
            GetCommunityState::ReadingLocalSite,
            GetCommunityEvent::LocalSiteRead(site),
        ).1 is Fail,
{
}

/// The view is read as a moderator's only when the question was answered
/// with a confirmation.
pub proof fn moderator_view_needs_confirmation(
    data: GetCommunity,
    requester: Option<PersonId>,
    state: GetCommunityState,
    event: GetCommunityEvent,
)
    requires
        get_community_step(data, requester, state, event).1 is ReadView,
    ensures
        state is CheckingModOrAdmin,
        get_community_step(data, requester, state, event).1->ReadView_is_mod_or_admin <==> event
            is ModOrAdminConfirmed,
        get_community_step(data, requester, state, event).1->ReadView_community_id
            == state->CheckingModOrAdmin_community_id,
{
}

/// The state the handler has reached from the start after the given
/// outcomes, in order.
pub open spec fn state_after(
    data: GetCommunity,
    requester: Option<PersonId>,
    events: Seq<GetCommunityEvent>,
) -> GetCommunityState
    decreases events.len(),
{
    if events.len() == 0 {
        GetCommunityState::Start
    } else {
        get_community_step(
            data,
            requester,
            state_after(data, requester, events.drop_last()),
            events.last(),
        ).0
    }
}

/// The action the handler asks for on the last of the given outcomes.
pub open spec fn last_action(
    data: GetCommunity,
    requester: Option<PersonId>,
    events: Seq<GetCommunityEvent>,
) -> GetCommunityAction
    recommends
        events.len() > 0,
{
    get_community_step(
        data,
        requester,
        state_after(data, requester, events.drop_last()),
        events.last(),
    ).1
}

/// Some outcome among `events` is the local site's settings, and they
/// do not refuse the requester.
pub open spec fn was_let_in(events: Seq<GetCommunityEvent>, requester: Option<PersonId>) -> bool {
    exists|i: int|
        0 <= i < events.len() && (#[trigger] events[i]) is LocalSiteRead
            && !private_instance_refuses(requester, events[i]->LocalSiteRead_0.private_instance)
}

/// The handler is at work on a community: it has left the local site's
/// settings behind and has not finished.
pub open spec fn at_work(state: GetCommunityState) -> bool {
    !(state is Start) && !(state is ReadingLocalSite) && !(state is Finished)
}

/// Whatever outcomes are reported, the handler is at work on a community
/// only if the request names one and the instance has let the requester
/// in.
pub proof fn gate_is_kept(
    data: GetCommunity,
    requester: Option<PersonId>,
    events: Seq<GetCommunityEvent>,
)
    ensures
        at_work(state_after(data, requester, events)) ==> was_let_in(events, requester) && (data.id
            is Some || data.name is Some),
    decreases events.len(),
{
    if events.len() > 0 && at_work(state_after(data, requester, events)) {
        let before = events.drop_last();
        gate_is_kept(data, requester, before);
        if at_work(state_after(data, requester, before)) {
            let i = choose|i: int|
                0 <= i < before.len() && (#[trigger] before[i]) is LocalSiteRead
                    && !private_instance_refuses(
                    requester,
                    before[i]->LocalSiteRead_0.private_instance,
                );
            assert(events[i] == before[i]);
        } else {
            assert(events[events.len() - 1] == events.last());
        }
    }
}

/// In every run of the handler, from the start and whatever outcomes are
/// reported, nothing of a community is read, and no answer given, before
/// the local site's settings have let the requester in: an anonymous
/// requester learns nothing from a private instance.
pub proof fn reads_need_admission(
    data: GetCommunity,
    requester: Option<PersonId>,
    events: Seq<GetCommunityEvent>,
)
    requires
        events.len() > 0,
        last_action(data, requester, events) is ReadView || last_action(data, requester, events)
            is ReadModerators || last_action(data, requester, events) is ReadSiteForActor
            || last_action(data, requester, events) is ReadLanguages || last_action(
            data,
            requester,
            events,
        ) is Respond,
    ensures
        was_let_in(events.drop_last(), requester),
{
    gate_is_kept(data, requester, events.drop_last());
}

} // verus!
