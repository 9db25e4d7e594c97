use federation_core::error::ResolveError;
use federation_core::resolver::{
    check_payload, live, resolve_local, shared_result, ttl_class, CachePolicy, DomainObject, FetchOutcome,
    Identifier, ObjectKind, ResolveStep, Resolver, TtlClass,
};

fn policy() -> CachePolicy {
    CachePolicy { actor_ttl: 100, content_ttl: 50, negative_ttl: 10 }
}

fn remote(url: &str) -> Identifier {
    Identifier::RemoteReference(String::from(url))
}

fn post_42() -> DomainObject {
    DomainObject {
        kind: ObjectKind::Post,
        id: 17,
        remote_id: String::from("https://remote.example/objects/42"),
        local: false,
    }
}

#[test]
fn wrong_declared_identity_is_invalid_and_leaves_no_entry() {
    let mut r = Resolver::new(policy());
    let requested = String::from("https://remote.example/objects/42");
    let id = remote("https://remote.example/objects/42");
    assert_eq!(r.resolve(&id, ObjectKind::Post, true, 1000), ResolveStep::Fetch);
    let outcome = FetchOutcome::Object {
        declared_id: String::from("https://remote.example/objects/99"),
        kind: ObjectKind::Post,
    };
    assert_eq!(
        r.complete_fetch(&requested, ObjectKind::Post, &outcome, 1001),
        Err(ResolveError::InvalidPayload)
    );
    // nothing is served for either identity, and no finding is remembered:
    // the next request fetches again
    assert_eq!(
        r.resolve(&id, ObjectKind::Post, false, 1002),
        ResolveStep::Fail(ResolveError::ResolutionDisabled)
    );
    assert_eq!(
        r.resolve(&remote("https://remote.example/objects/99"), ObjectKind::Post, false, 1002),
        ResolveStep::Fail(ResolveError::ResolutionDisabled)
    );
    assert_eq!(r.resolve(&id, ObjectKind::Post, true, 1002), ResolveStep::Fetch);
}

#[test]
fn concurrent_requests_share_one_fetch_and_one_result() {
    let mut r = Resolver::new(policy());
    let id = remote("https://remote.example/c/main");
    assert_eq!(r.resolve(&id, ObjectKind::Community, true, 10), ResolveStep::Fetch);
    assert_eq!(r.resolve(&id, ObjectKind::Community, true, 10), ResolveStep::Await);
    assert_eq!(r.resolve(&id, ObjectKind::Community, true, 11), ResolveStep::Await);
    let requested = String::from("https://remote.example/c/main");
    let outcome = FetchOutcome::Object {
        declared_id: String::from("https://remote.example/c/main"),
        kind: ObjectKind::Community,
    };
    assert_eq!(r.complete_fetch(&requested, ObjectKind::Community, &outcome, 12), Ok(()));
    // accepted, not yet stored: later callers still wait
    assert_eq!(r.resolve(&id, ObjectKind::Community, true, 12), ResolveStep::Await);
    let community = DomainObject {
        kind: ObjectKind::Community,
        id: 33,
        remote_id: String::from("https://remote.example/c/main"),
        local: false,
    };
    r.store(community.snapshot(), 12);
    let first = r.resolve(&id, ObjectKind::Community, true, 13);
    let second = r.resolve(&id, ObjectKind::Community, true, 13);
    assert_eq!(first, ResolveStep::Return(community));
    assert_eq!(first, second);
}

#[test]
fn a_live_entry_is_served_without_a_fetch_until_it_expires() {
    let mut r = Resolver::new(policy());
    r.store(post_42(), 1000);
    let id = remote("https://remote.example/objects/42");
    assert_eq!(r.resolve(&id, ObjectKind::Post, false, 1000), ResolveStep::Return(post_42()));
    assert_eq!(r.resolve(&id, ObjectKind::Post, false, 1049), ResolveStep::Return(post_42()));
    assert_eq!(
        r.resolve(&id, ObjectKind::Post, false, 1050),
        ResolveStep::Fail(ResolveError::ResolutionDisabled)
    );
    assert_eq!(r.resolve(&id, ObjectKind::Post, true, 1050), ResolveStep::Fetch);
}

#[test]
fn a_cached_object_of_another_kind_is_a_type_error() {
    let mut r = Resolver::new(policy());
    r.store(post_42(), 1000);
    let id = remote("https://remote.example/objects/42");
    assert_eq!(
        r.resolve(&id, ObjectKind::Comment, true, 1001),
        ResolveStep::Fail(ResolveError::WrongType)
    );
}

#[test]
fn a_wrong_kind_is_refused_and_not_cached() {
    let mut r = Resolver::new(policy());
    let requested = String::from("https://remote.example/objects/42");
    let id = remote("https://remote.example/objects/42");
    assert_eq!(r.resolve(&id, ObjectKind::Post, true, 5), ResolveStep::Fetch);
    let outcome = FetchOutcome::Object {
        declared_id: String::from("https://remote.example/objects/42"),
        kind: ObjectKind::Comment,
    };
    assert_eq!(
        r.complete_fetch(&requested, ObjectKind::Post, &outcome, 6),
        Err(ResolveError::WrongType)
    );
    assert_eq!(r.resolve(&id, ObjectKind::Comment, true, 7), ResolveStep::Fetch);
}

#[test]
fn an_unreadable_answer_is_remembered_for_a_short_time() {
    let mut r = Resolver::new(policy());
    let requested = String::from("https://remote.example/objects/1");
    let id = remote("https://remote.example/objects/1");
    assert_eq!(r.resolve(&id, ObjectKind::Post, true, 100), ResolveStep::Fetch);
    assert_eq!(
        r.complete_fetch(&requested, ObjectKind::Post, &FetchOutcome::Malformed, 100),
        Err(ResolveError::InvalidPayload)
    );
    assert_eq!(
        r.resolve(&id, ObjectKind::Post, true, 109),
        ResolveStep::Fail(ResolveError::InvalidPayload)
    );
    assert_eq!(r.resolve(&id, ObjectKind::Post, true, 110), ResolveStep::Fetch);
}

#[test]
fn an_unreachable_server_is_not_remembered() {
    let mut r = Resolver::new(policy());
    let requested = String::from("https://remote.example/objects/1");
    let id = remote("https://remote.example/objects/1");
    assert_eq!(r.resolve(&id, ObjectKind::Post, true, 100), ResolveStep::Fetch);
    assert_eq!(
        r.complete_fetch(&requested, ObjectKind::Post, &FetchOutcome::Unreachable, 101),
        Err(ResolveError::RemoteUnreachable)
    );
    assert_eq!(r.resolve(&id, ObjectKind::Post, true, 101), ResolveStep::Fetch);
}

#[test]
fn storing_clears_an_earlier_finding_and_invalidation_clears_the_entry() {
    let mut r = Resolver::new(policy());
    let requested = String::from("https://remote.example/objects/42");
    let id = remote("https://remote.example/objects/42");
    assert_eq!(
        r.complete_fetch(&requested, ObjectKind::Post, &FetchOutcome::Malformed, 100),
        Err(ResolveError::InvalidPayload)
    );
    r.store(post_42(), 101);
    assert_eq!(r.resolve(&id, ObjectKind::Post, true, 102), ResolveStep::Return(post_42()));
    r.invalidate(&requested);
    assert_eq!(r.resolve(&id, ObjectKind::Post, true, 102), ResolveStep::Fetch);
    r.abandon(&requested);
    assert_eq!(r.resolve(&id, ObjectKind::Post, true, 103), ResolveStep::Fetch);
}

#[test]
fn a_local_handle_is_looked_up_and_a_miss_is_not_found() {
    let mut r = Resolver::new(policy());
    let handle = Identifier::LocalHandle { name: String::from("main"), kind: ObjectKind::Community };
    assert_eq!(r.resolve(&handle, ObjectKind::Community, false, 1), ResolveStep::LookupLocal);
    assert_eq!(
        r.resolve(&handle, ObjectKind::Person, false, 1),
        ResolveStep::Fail(ResolveError::WrongType)
    );
    assert_eq!(resolve_local(None), Err(ResolveError::NotFound));
    assert_eq!(resolve_local(Some(post_42())), Ok(post_42()));
}

#[test]
fn check_payload_names_each_refusal() {
    let requested = String::from("https://a.example/1");
    assert_eq!(
        check_payload(&requested, ObjectKind::Post, &FetchOutcome::Unreachable),
        Err(ResolveError::RemoteUnreachable)
    );
    assert_eq!(
        check_payload(&requested, ObjectKind::Post, &FetchOutcome::Malformed),
        Err(ResolveError::InvalidPayload)
    );
    let other = FetchOutcome::Object {
        declared_id: String::from("https://a.example/2"),
        kind: ObjectKind::Person,
    };
    assert_eq!(check_payload(&requested, ObjectKind::Post, &other), Err(ResolveError::InvalidPayload));
    let same = FetchOutcome::Object {
        declared_id: String::from("https://a.example/1"),
        kind: ObjectKind::Post,
    };
    assert_eq!(check_payload(&requested, ObjectKind::Post, &same), Ok(()));
}

#[test]
fn lifetimes_end_exactly_when_they_have_passed() {
    assert!(live(100, 10, 100));
    assert!(live(100, 10, 109));
    assert!(!live(100, 10, 110));
    assert!(live(100, 10, 50));
    assert!(!live(100, 0, 100));
    assert!(live(u64::MAX, 5, u64::MAX));
    assert_eq!(ttl_class(ObjectKind::Person), TtlClass::Actor);
    assert_eq!(ttl_class(ObjectKind::Community), TtlClass::Actor);
    assert_eq!(ttl_class(ObjectKind::Post), TtlClass::Content);
    assert_eq!(ttl_class(ObjectKind::Comment), TtlClass::Content);
    assert_eq!(ttl_class(ObjectKind::PrivateMessage), TtlClass::Content);
}

#[test]
fn waiting_callers_are_handed_the_fetchers_result() {
    let fetched = Ok(post_42());
    assert_eq!(shared_result(&fetched, ObjectKind::Post), Ok(post_42()));
    assert_eq!(shared_result(&fetched, ObjectKind::Post), shared_result(&fetched, ObjectKind::Post));
    assert_eq!(shared_result(&fetched, ObjectKind::Person), Err(ResolveError::WrongType));
    let failed = Err(ResolveError::RemoteUnreachable);
    assert_eq!(shared_result(&failed, ObjectKind::Post), Err(ResolveError::RemoteUnreachable));
    assert_eq!(shared_result(&failed, ObjectKind::Person), Err(ResolveError::RemoteUnreachable));
}

#[test]
fn an_object_of_another_identity_is_never_stored() {
    let mut r = Resolver::new(policy());
    let requested = String::from("https://remote.example/objects/99");
    let id = remote("https://remote.example/objects/99");
    assert_eq!(r.resolve(&id, ObjectKind::Post, true, 1), ResolveStep::Fetch);
    assert_eq!(r.store_fetched(&requested, post_42(), 2), Err(ResolveError::InvalidPayload));
    assert_eq!(
        r.resolve(&id, ObjectKind::Post, false, 3),
        ResolveStep::Fail(ResolveError::ResolutionDisabled)
    );
    assert_eq!(
        r.resolve(&remote("https://remote.example/objects/42"), ObjectKind::Post, false, 3),
        ResolveStep::Fail(ResolveError::ResolutionDisabled)
    );
    assert_eq!(r.resolve(&id, ObjectKind::Post, true, 3), ResolveStep::Fetch);
    let own = String::from("https://remote.example/objects/42");
    assert_eq!(r.store_fetched(&own, post_42(), 4), Ok(post_42()));
    assert_eq!(
        r.resolve(&remote("https://remote.example/objects/42"), ObjectKind::Post, false, 5),
        ResolveStep::Return(post_42())
    );
}
