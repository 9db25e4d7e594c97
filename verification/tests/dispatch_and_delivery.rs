use federation_core::delivery::{
    backoff_delay, AttemptOutcome, DeliveryTask, RetryPolicy, TaskStatus,
};
use federation_core::dispatch::{
    audience, can_attempt, enqueue_deliveries, ActivityKind, Dispatcher, IntentObject,
    OutboundActivityIntent,
};
use federation_core::error::DispatchQueueFull;
use federation_core::ids::{CommunityId, PersonId, PostId, PrivateMessageId};
use federation_core::private_message::PrivateMessageRow;
use federation_core::remove_post::PostRow;

fn a_post() -> PostRow {
    PostRow { id: PostId(7), community_id: CommunityId(3), creator_id: PersonId(11), removed: false }
}

fn intent(kind: ActivityKind) -> OutboundActivityIntent {
    OutboundActivityIntent {
        activity_kind: kind,
        actor: PersonId(1),
        object: IntentObject::Post(a_post()),
        reason: None,
        undone: false,
    }
}

fn texts(items: &[&str]) -> Vec<String> {
    items.iter().map(|s| String::from(*s)).collect()
}

#[test]
fn create_reaches_the_destination_before_remove() {
    let mut d = Dispatcher::new(8);
    assert_eq!(d.submit(intent(ActivityKind::Create)), Ok(()));
    assert_eq!(d.submit(intent(ActivityKind::Remove)), Ok(()));
    let mut queue: Vec<DeliveryTask> = Vec::new();
    let to = texts(&["https://remote.example/inbox"]);
    let first = d.next().unwrap();
    assert_eq!(first.activity_kind, ActivityKind::Create);
    enqueue_deliveries(&mut queue, 1, &String::from("create"), &to, 0);
    let second = d.next().unwrap();
    assert_eq!(second.activity_kind, ActivityKind::Remove);
    enqueue_deliveries(&mut queue, 2, &String::from("remove"), &to, 5);
    assert_eq!(d.next(), None);

    assert!(can_attempt(&queue, 0, 5));
    assert!(!can_attempt(&queue, 1, 5));
    let p = RetryPolicy { base_delay: 10, max_delay: 100, max_attempts: 3 };
    assert_eq!(queue[0].record_attempt(AttemptOutcome::Transient, 5, &p), TaskStatus::Pending);
    // the create is postponed; the remove still waits behind it
    assert!(!can_attempt(&queue, 0, 6));
    assert!(!can_attempt(&queue, 1, 6));
    assert_eq!(queue[0].record_attempt(AttemptOutcome::Delivered, 15, &p), TaskStatus::Delivered);
    assert!(can_attempt(&queue, 1, 15));
    assert_eq!(queue[1].signed_payload, "remove");
}

#[test]
fn submit_fails_fast_on_a_full_queue_and_keeps_what_it_holds() {
    let mut d = Dispatcher::new(2);
    assert_eq!(d.submit(intent(ActivityKind::Create)), Ok(()));
    assert_eq!(d.submit(intent(ActivityKind::Update)), Ok(()));
    assert_eq!(d.submit(intent(ActivityKind::Delete)), Err(DispatchQueueFull));
    assert_eq!(d.len(), 2);
    assert_eq!(d.next().unwrap().activity_kind, ActivityKind::Create);
    assert_eq!(d.submit(intent(ActivityKind::Remove)), Ok(()));
    assert_eq!(d.next().unwrap().activity_kind, ActivityKind::Update);
    assert_eq!(d.next().unwrap().activity_kind, ActivityKind::Remove);
    assert_eq!(d.next(), None);
    let mut none = Dispatcher::new(0);
    assert_eq!(none.submit(intent(ActivityKind::Create)), Err(DispatchQueueFull));
}

#[test]
fn audience_holds_each_destination_once() {
    let followers = texts(&["https://a.example/inbox", "https://b.example/inbox", "https://a.example/inbox"]);
    let mentioned = texts(&["https://b.example/inbox", "https://c.example/inbox"]);
    assert_eq!(
        audience(&followers, &mentioned),
        texts(&["https://a.example/inbox", "https://b.example/inbox", "https://c.example/inbox"])
    );
    assert_eq!(audience(&texts(&[]), &texts(&[])), texts(&[]));
    assert_eq!(
        audience(&texts(&[]), &texts(&["https://t.example/inbox"])),
        texts(&["https://t.example/inbox"])
    );
}

#[test]
fn one_task_per_destination_with_the_same_payload() {
    let mut queue: Vec<DeliveryTask> = Vec::new();
    let to = texts(&["https://a.example/inbox", "https://b.example/inbox"]);
    enqueue_deliveries(&mut queue, 9, &String::from("signed"), &to, 77);
    assert_eq!(queue.len(), 2);
    assert_eq!(
        queue[1],
        DeliveryTask {
            destination_inbox_url: String::from("https://b.example/inbox"),
            signed_payload: String::from("signed"),
            attempt_count: 0,
            next_attempt_at: 77,
            intent_id: 9,
            status: TaskStatus::Pending,
        }
    );
    // another destination's pending task holds nothing back
    assert!(can_attempt(&queue, 0, 77));
    assert!(can_attempt(&queue, 1, 77));
    assert!(!can_attempt(&queue, 1, 76));
    assert!(!can_attempt(&queue, 2, 77));
}

#[test]
fn backoff_doubles_up_to_the_cap() {
    let p = RetryPolicy { base_delay: 10, max_delay: 100, max_attempts: 10 };
    assert_eq!(backoff_delay(&p, 0), 10);
    assert_eq!(backoff_delay(&p, 1), 20);
    assert_eq!(backoff_delay(&p, 2), 40);
    assert_eq!(backoff_delay(&p, 3), 80);
    assert_eq!(backoff_delay(&p, 4), 100);
    assert_eq!(backoff_delay(&p, 40), 100);
    let big = RetryPolicy { base_delay: u64::MAX, max_delay: u64::MAX, max_attempts: 1 };
    assert_eq!(backoff_delay(&big, 3), u64::MAX);
    let zero = RetryPolicy { base_delay: 0, max_delay: 100, max_attempts: 1 };
    assert_eq!(backoff_delay(&zero, 5), 0);
    let low_cap = RetryPolicy { base_delay: 50, max_delay: 7, max_attempts: 1 };
    assert_eq!(backoff_delay(&low_cap, 0), 7);
}

#[test]
fn an_exhausted_task_fails_once_and_stays_failed() {
    let p = RetryPolicy { base_delay: 10, max_delay: 100, max_attempts: 3 };
    let mut t = DeliveryTask::new(String::from("https://a.example/inbox"), String::from("x"), 1, 0);
    assert!(t.is_due(0));
    assert_eq!(t.record_attempt(AttemptOutcome::Transient, 100, &p), TaskStatus::Pending);
    assert_eq!(t.attempt_count, 1);
    assert_eq!(t.next_attempt_at, 110);
    assert!(!t.is_due(109));
    assert!(t.is_due(110));
    assert_eq!(t.record_attempt(AttemptOutcome::Transient, 110, &p), TaskStatus::Pending);
    assert_eq!(t.next_attempt_at, 130);
    assert_eq!(t.record_attempt(AttemptOutcome::Transient, 130, &p), TaskStatus::Failed);
    assert_eq!(t.attempt_count, 3);
    assert!(t.is_terminal());
    assert!(!t.is_due(u64::MAX));
    assert_eq!(t.record_attempt(AttemptOutcome::Delivered, 200, &p), TaskStatus::Failed);
    assert_eq!(t.record_attempt(AttemptOutcome::Transient, 200, &p), TaskStatus::Failed);
    assert_eq!(t.attempt_count, 3);
    assert_eq!(t.next_attempt_at, 130);
}

#[test]
fn a_permanent_failure_ends_the_task_at_once() {
    let p = RetryPolicy { base_delay: 10, max_delay: 100, max_attempts: 3 };
    let mut t = DeliveryTask::new(String::from("https://a.example/inbox"), String::from("x"), 1, 0);
    assert_eq!(t.record_attempt(AttemptOutcome::Permanent, 1, &p), TaskStatus::Failed);
    assert_eq!(t.attempt_count, 1);
    let mut u = DeliveryTask::new(String::from("https://a.example/inbox"), String::from("x"), 1, 0);
    assert_eq!(u.record_attempt(AttemptOutcome::Delivered, 1, &p), TaskStatus::Delivered);
    assert_eq!(u.record_attempt(AttemptOutcome::Permanent, 2, &p), TaskStatus::Delivered);
}

#[test]
fn the_next_attempt_time_stops_at_the_end_of_time() {
    let p = RetryPolicy { base_delay: 10, max_delay: 100, max_attempts: 3 };
    let mut t = DeliveryTask::new(String::from("https://a.example/inbox"), String::from("x"), 1, 0);
    assert_eq!(t.record_attempt(AttemptOutcome::Transient, u64::MAX - 3, &p), TaskStatus::Pending);
    assert_eq!(t.next_attempt_at, u64::MAX);
}

#[test]
fn intents_are_built_from_what_the_handlers_submit() {
    let i = OutboundActivityIntent::for_removed_post(a_post(), PersonId(1), String::from("spam"), true);
    assert_eq!(i.activity_kind, ActivityKind::Remove);
    assert_eq!(i.reason, Some(String::from("spam")));
    assert!(!i.undone);
    let m = PrivateMessageRow {
        id: PrivateMessageId(5),
        creator_id: PersonId(2),
        recipient_id: PersonId(9),
        deleted: false,
    };
    let j = OutboundActivityIntent::for_deleted_message(PersonId(2), m, false);
    assert_eq!(j.activity_kind, ActivityKind::Delete);
    assert_eq!(j.object, IntentObject::PrivateMessage(m));
    assert!(j.undone);
}
