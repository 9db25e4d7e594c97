use federation_core::delivery::{classify, AttemptOutcome, AttemptResult, RetryPolicy, TaskStatus};
use federation_core::error::ResolveError;
use federation_core::pool::{DeliveryPool, Relations};
use federation_core::resolver::{
    default_limits, judge_response, FetchLimits, FetchOutcome, FetchResponse, ObjectKind,
};

fn policy() -> RetryPolicy {
    RetryPolicy { base_delay: 10, max_delay: 100, max_attempts: 2 }
}

fn inboxes(items: &[&str]) -> Vec<String> {
    items.iter().map(|s| String::from(*s)).collect()
}

#[test]
fn no_more_attempts_than_workers_and_the_rest_wait() {
    let mut pool = DeliveryPool::new(2, policy());
    let to = inboxes(&["https://a.example/inbox", "https://b.example/inbox", "https://c.example/inbox"]);
    pool.enqueue(1, &String::from("payload"), &to, 0);
    assert_eq!(pool.claim(0), Some(0));
    assert_eq!(pool.claim(0), Some(1));
    assert_eq!(pool.claim(0), None);
    assert_eq!(pool.complete(0, AttemptResult::Status(200), 1), Some(TaskStatus::Delivered));
    assert_eq!(pool.claim(1), Some(2));
    assert_eq!(pool.claim(1), None);
    assert_eq!(pool.complete(1, AttemptResult::Status(404), 2), Some(TaskStatus::Failed));
    assert_eq!(pool.complete(2, AttemptResult::Status(202), 2), Some(TaskStatus::Delivered));
    assert_eq!(pool.claim(1000), None);
}

#[test]
fn a_destination_gets_its_deliveries_in_the_order_of_submission() {
    let mut pool = DeliveryPool::new(4, policy());
    let to = inboxes(&["https://remote.example/inbox"]);
    pool.enqueue(1, &String::from("create"), &to, 0);
    pool.enqueue(2, &String::from("remove"), &to, 5);
    assert_eq!(pool.claim(5), Some(0));
    // a worker is free, but the later task waits for the earlier one
    assert_eq!(pool.claim(5), None);
    assert_eq!(pool.complete(0, AttemptResult::TimedOut, 6), Some(TaskStatus::Pending));
    assert_eq!(pool.claim(15), None);
    assert_eq!(pool.claim(16), Some(0));
    assert_eq!(pool.complete(0, AttemptResult::ConnectionRefused, 17), Some(TaskStatus::Failed));
    // the failed task is recorded and blocks nothing
    assert_eq!(pool.claim(17), Some(1));
    assert_eq!(pool.complete(1, AttemptResult::Status(200), 18), Some(TaskStatus::Delivered));
}

#[test]
fn one_destinations_failure_does_not_hold_back_another() {
    let mut pool = DeliveryPool::new(1, policy());
    let to = inboxes(&["https://down.example/inbox", "https://up.example/inbox"]);
    pool.enqueue(1, &String::from("payload"), &to, 0);
    assert_eq!(pool.claim(0), Some(0));
    assert_eq!(pool.complete(0, AttemptResult::Status(503), 0), Some(TaskStatus::Pending));
    assert_eq!(pool.claim(0), Some(1));
    assert_eq!(pool.complete(1, AttemptResult::Status(200), 1), Some(TaskStatus::Delivered));
}

#[test]
fn completing_an_unclaimed_task_changes_nothing() {
    let mut pool = DeliveryPool::new(1, policy());
    let to = inboxes(&["https://a.example/inbox"]);
    pool.enqueue(1, &String::from("payload"), &to, 0);
    assert_eq!(pool.complete(0, AttemptResult::Status(200), 0), None);
    assert_eq!(pool.complete(7, AttemptResult::Status(200), 0), None);
    assert_eq!(pool.claim(0), Some(0));
    assert_eq!(pool.complete(0, AttemptResult::Status(200), 0), Some(TaskStatus::Delivered));
    assert_eq!(pool.complete(0, AttemptResult::Status(200), 0), None);
    let mut idle = DeliveryPool::new(0, policy());
    idle.enqueue(1, &String::from("payload"), &to, 0);
    assert_eq!(idle.claim(0), None);
}

#[test]
fn results_are_classified_by_kind() {
    assert_eq!(classify(AttemptResult::Status(200)), AttemptOutcome::Delivered);
    assert_eq!(classify(AttemptResult::Status(299)), AttemptOutcome::Delivered);
    assert_eq!(classify(AttemptResult::Status(300)), AttemptOutcome::Permanent);
    assert_eq!(classify(AttemptResult::Status(199)), AttemptOutcome::Permanent);
    assert_eq!(classify(AttemptResult::Status(400)), AttemptOutcome::Permanent);
    assert_eq!(classify(AttemptResult::Status(499)), AttemptOutcome::Permanent);
    assert_eq!(classify(AttemptResult::Status(500)), AttemptOutcome::Transient);
    assert_eq!(classify(AttemptResult::Status(599)), AttemptOutcome::Transient);
    assert_eq!(classify(AttemptResult::Status(600)), AttemptOutcome::Permanent);
    assert_eq!(classify(AttemptResult::TimedOut), AttemptOutcome::Transient);
    assert_eq!(classify(AttemptResult::ConnectionRefused), AttemptOutcome::Transient);
    assert_eq!(classify(AttemptResult::SignatureRejected), AttemptOutcome::Permanent);
}

fn answer(redirects: u32, content_type_accepted: bool, size: u64) -> FetchResponse {
    FetchResponse {
        redirects,
        content_type_accepted,
        size,
        declared: Some((String::from("https://a.example/1"), ObjectKind::Post)),
    }
}

#[test]
fn answers_are_held_to_the_ceilings() {
    let limits = default_limits(1000);
    assert_eq!(limits, FetchLimits { max_bytes: 1000, max_redirects: 1 });
    let object = FetchOutcome::Object {
        declared_id: String::from("https://a.example/1"),
        kind: ObjectKind::Post,
    };
    assert_eq!(judge_response(answer(0, true, 1000), &limits), object);
    assert_eq!(judge_response(answer(1, true, 10), &limits), object);
    assert_eq!(judge_response(answer(2, true, 10), &limits), FetchOutcome::Unreachable);
    assert_eq!(judge_response(answer(0, true, 1001), &limits), FetchOutcome::Malformed);
    assert_eq!(judge_response(answer(0, false, 10), &limits), FetchOutcome::Malformed);
    let unreadable =
        FetchResponse { redirects: 0, content_type_accepted: true, size: 10, declared: None };
    assert_eq!(judge_response(unreadable, &limits), FetchOutcome::Malformed);
}

#[test]
fn an_intent_becomes_one_task_per_distinct_inbox() {
    let mut pool = DeliveryPool::new(8, policy());
    let found = Ok(Relations {
        primary: inboxes(&["https://a.example/inbox", "https://b.example/inbox"]),
        direct: inboxes(&["https://b.example/inbox", "https://a.example/inbox"]),
    });
    assert_eq!(pool.dispatch(1, &String::from("payload"), &found, 0), Ok(2));
    assert_eq!(pool.claim(0), Some(0));
    assert_eq!(pool.claim(0), Some(1));
    assert_eq!(pool.claim(0), None);
}

#[test]
fn an_intent_without_an_audience_is_dropped() {
    let mut pool = DeliveryPool::new(8, policy());
    let failed = Err(ResolveError::NotFound);
    assert_eq!(pool.dispatch(1, &String::from("payload"), &failed, 0), Err(ResolveError::NotFound));
    assert_eq!(pool.claim(0), None);
    let nobody = Ok(Relations { primary: inboxes(&[]), direct: inboxes(&[]) });
    assert_eq!(pool.dispatch(2, &String::from("payload"), &nobody, 0), Ok(0));
    assert_eq!(pool.claim(0), None);
}

#[test]
fn ended_tasks_stay_on_record() {
    let mut pool = DeliveryPool::new(1, policy());
    let to = inboxes(&["https://a.example/inbox"]);
    pool.enqueue(4, &String::from("payload"), &to, 0);
    assert_eq!(pool.len(), 1);
    assert_eq!(pool.claim(0), Some(0));
    assert_eq!(pool.complete(0, AttemptResult::SignatureRejected, 3), Some(TaskStatus::Failed));
    assert_eq!(pool.len(), 1);
    let task = pool.task(0).unwrap();
    assert_eq!(task.status, TaskStatus::Failed);
    assert_eq!(task.intent_id, 4);
    assert_eq!(task.attempt_count, 1);
    assert_eq!(task.destination_inbox_url, "https://a.example/inbox");
    assert!(pool.task(1).is_none());
}
