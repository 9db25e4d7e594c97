//! The outbound dispatcher: a bounded first-in, first-out queue of intents
//! to federate, the audience of an intent without duplicates, and the
//! delivery tasks that an intent gives rise to, in an order that keeps
//! each destination's deliveries in the order of submission.

use vstd::prelude::*;
use crate::delivery::{due, DeliveryTask, TaskStatus};
use crate::error::DispatchQueueFull;
use crate::ids::PersonId;
use crate::private_message::PrivateMessageRow;
use crate::remove_post::PostRow;

verus! {

#[derive(Clone, Copy, PartialEq, Eq, Structural, Debug)]
pub enum ActivityKind {
    Create,
    Update,
    Delete,
    Remove,
}

/// What an intent is about.
#[derive(Clone, Copy, PartialEq, Eq, Structural, Debug)]
pub enum IntentObject {
    Post(PostRow),
    PrivateMessage(PrivateMessageRow),
}

/// A change that has been committed locally and is to be told to remote
/// servers. `undone` is false where the action is taken (a removal, a
/// deletion) and true where it is taken back.
#[derive(PartialEq, Eq, Debug)]
pub struct OutboundActivityIntent {
    pub activity_kind: ActivityKind,
    pub actor: PersonId,
    pub object: IntentObject,
    pub reason: Option<String>,
    pub undone: bool,
}

impl OutboundActivityIntent {
    /// The intent of a moderator's removal (`removed`) or restoration of a
    /// post.
    pub fn for_removed_post(post: PostRow, moderator: PersonId, reason: String, removed: bool) -> (i:
        OutboundActivityIntent)
        ensures
            i == (OutboundActivityIntent {
                activity_kind: ActivityKind::Remove,
                actor: moderator,
                object: IntentObject::Post(post),
                reason: Some(reason),
                undone: !removed,
            }),
    {
        OutboundActivityIntent {
            activity_kind: ActivityKind::Remove,
            actor: moderator,
            object: IntentObject::Post(post),
            reason: Some(reason),
            undone: !removed,
        }
    }

    /// The intent of a sender's deletion (`deleted`) or restoration of a
    /// private message.
    pub fn for_deleted_message(sender: PersonId, message: PrivateMessageRow, deleted: bool) -> (i:
        OutboundActivityIntent)
        ensures
            i == (OutboundActivityIntent {
                activity_kind: ActivityKind::Delete,
                actor: sender,
                object: IntentObject::PrivateMessage(message),
                reason: None,
                undone: !deleted,
            }),
    {
        OutboundActivityIntent {
            activity_kind: ActivityKind::Delete,
            actor: sender,
            object: IntentObject::PrivateMessage(message),
            reason: None,
            undone: !deleted,
        }
    }
}

/// The queue between request handlers and the background consumer.
pub struct Dispatcher {
    queue: Vec<OutboundActivityIntent>,
    capacity: usize,
}

impl Dispatcher {
    /// The intents waiting, oldest first.
    pub closed spec fn pending(self) -> Seq<OutboundActivityIntent> {
        self.queue@
    }

    /// The most intents the queue holds.
    pub closed spec fn capacity(self) -> usize {
        self.capacity
    }

    /// The queue holds no more than its capacity.
    pub open spec fn wf(self) -> bool {
        self.pending().len() <= self.capacity()
    }

    /// An empty queue that holds up to `capacity` intents.
    pub fn new(capacity: usize) -> (d: Dispatcher)
        ensures
            d.wf(),
            d.pending() == Seq::<OutboundActivityIntent>::empty(),
            d.capacity() == capacity,
    {
        Dispatcher { queue: Vec::new(), capacity }
    }

    /// The number of intents waiting.
    pub fn len(&self) -> (n: usize)
        ensures
            n == self.pending().len(),
    {
        self.queue.len()
    }

    /// Accepts an intent behind those already waiting, or refuses it at
    /// once where the queue is at capacity. It waits for nothing.
    pub fn submit(&mut self, intent: OutboundActivityIntent) -> (r: Result<(), DispatchQueueFull>)
        requires
            old(self).wf(),
        ensures
            final(self).wf(),
            final(self).capacity() == old(self).capacity(),
            r is Ok <==> old(self).pending().len() < old(self).capacity(),
            r is Ok ==> final(self).pending() == old(self).pending().push(intent),
            r is Err ==> final(self).pending() == old(self).pending(),
    {
        if self.queue.len() >= self.capacity {
            return Err(DispatchQueueFull);
        }
        self.queue.push(intent);
        Ok(())
    }

    /// Takes the oldest waiting intent, if there is one.
    pub fn next(&mut self) -> (r: Option<OutboundActivityIntent>)
        requires
            old(self).wf(),
        ensures
            final(self).wf(),
            final(self).capacity() == old(self).capacity(),
            r is None <==> old(self).pending().len() == 0,
            r is Some ==> r->Some_0 == old(self).pending().first() && final(self).pending() == old(
                self,
            ).pending().drop_first(),
            r is None ==> final(self).pending() == old(self).pending(),
    {
        if self.queue.len() == 0 {
            return None;
        }
        let first = self.queue.remove(0);
        proof {
            assert(final(self).queue@ =~= old(self).queue@.drop_first());
        }
        Some(first)
    }
}

/// The texts that a list of strings holds.
pub open spec fn texts(v: Seq<String>) -> Seq<Seq<char>> {
    Seq::new(v.len(), |i: int| v[i]@)
}

/// `acc` followed by the items of `more` that it does not hold yet, each
/// once, in the order of their first occurrence.
pub open spec fn merged(acc: Seq<Seq<char>>, more: Seq<Seq<char>>) -> Seq<Seq<char>>
    decreases more.len(),
{
    if more.len() == 0 {
        acc
    } else {
        let m = merged(acc, more.drop_last());
        if m.contains(more.last()) {
            m
        } else {
            m.push(more.last())
        }
    }
}

/// The audience of an intent whose destinations are reachable by two
/// relations: every inbox of either, once.
pub open spec fn audience_of(primary: Seq<Seq<char>>, direct: Seq<Seq<char>>) -> Seq<Seq<char>> {
    merged(merged(Seq::empty(), primary), direct)
}

/// Merging adds no item twice and loses none: the result holds exactly the
/// items of both lists, and no duplicates where `acc` had none.
pub proof fn merged_is_distinct_union(acc: Seq<Seq<char>>, more: Seq<Seq<char>>)
    ensures
        acc.no_duplicates() ==> merged(acc, more).no_duplicates(),
        forall|x: Seq<char>| #[trigger]
            merged(acc, more).contains(x) <==> acc.contains(x) || more.contains(x),
        acc.len() <= merged(acc, more).len() <= acc.len() + more.len(),
    decreases more.len(),
{
    if more.len() > 0 {
        let rest = more.drop_last();
        let last = more.last();
        let m = merged(acc, rest);
        merged_is_distinct_union(acc, rest);
        assert forall|x: Seq<char>| #[trigger]
            merged(acc, more).contains(x) <==> acc.contains(x) || more.contains(x) by {
            if more.contains(x) {
                let i = choose|i: int| 0 <= i < more.len() && more[i] == x;
                if i < more.len() - 1 {
                    assert(rest[i] == x);
                    assert(rest.contains(x));
                }
            }
            if rest.contains(x) {
                let i = choose|i: int| 0 <= i < rest.len() && rest[i] == x;
                assert(more[i] == x);
            }
            assert(more[more.len() - 1] == last);
            if !m.contains(last) {
                let p = m.push(last);
                assert(p[p.len() - 1] == last);
                if m.contains(x) {
                    let i = choose|i: int| 0 <= i < m.len() && m[i] == x;
                    assert(p[i] == x);
                }
                if p.contains(x) {
                    let i = choose|i: int| 0 <= i < p.len() && p[i] == x;
                    if i < m.len() {
                        assert(m[i] == x);
                    }
                }
            }
        }
        if acc.no_duplicates() && !m.contains(last) {
            let p = m.push(last);
            assert forall|i: int, j: int| 0 <= i < p.len() && 0 <= j < p.len() && i != j implies p[i]
                != p[j] by {
                if i < m.len() && j < m.len() {
                    assert(m[i] != m[j]);
                } else if i < m.len() {
                    assert(m.contains(m[i]));
                } else if j < m.len() {
                    assert(m.contains(m[j]));
                }
            }
        }
    }
}

fn holds(list: &Vec<String>, item: &String) -> (b: bool)
    ensures
        b == texts(list@).contains(item@),
{
    let mut i: usize = 0;
    while i < list.len()
        invariant
            i <= list@.len(),
            forall|j: int| 0 <= j < i ==> texts(list@)[j] != item@,
        decreases list@.len() - i,
    {
        if list[i] == *item {
            assert(texts(list@)[i as int] == item@);
            return true;
        }
        i += 1;
    }
    false
}

fn merge_into(out: &mut Vec<String>, more: &Vec<String>)
    ensures
        texts(final(out)@) == merged(texts(old(out)@), texts(more@)),
{
    let mut i: usize = 0;
    assert(texts(more@).take(0) =~= Seq::<Seq<char>>::empty());
    while i < more.len()
        invariant
            i <= more@.len(),
            texts(out@) == merged(texts(old(out)@), texts(more@).take(i as int)),
        decreases more@.len() - i,
    {
        let ghost upto = texts(more@).take(i + 1);
        assert(upto.drop_last() =~= texts(more@).take(i as int));
        assert(upto.last() == more@[i as int]@);
        if !holds(out, &more[i]) {
            let ghost before = out@;
            out.push(more[i].clone());
            assert(texts(out@) =~= texts(before).push(more@[i as int]@));
        }
        i += 1;
    }
    assert(texts(more@).take(more@.len() as int) =~= texts(more@));
}

/// The destinations of an intent: the inboxes reachable by either
/// relation (the followers of a community or the participants of a
/// conversation, and the actors addressed directly), each exactly once,
/// in the order of their first occurrence.
pub fn audience(primary: &Vec<String>, direct: &Vec<String>) -> (out: Vec<String>)
    ensures
        texts(out@) == audience_of(texts(primary@), texts(direct@)),
        texts(out@).no_duplicates(),
        forall|x: Seq<char>| #[trigger]
            texts(out@).contains(x) <==> texts(primary@).contains(x) || texts(direct@).contains(x),
{
    let mut out: Vec<String> = Vec::new();
    assert(texts(out@) =~= Seq::<Seq<char>>::empty());
    merge_into(&mut out, primary);
    merge_into(&mut out, direct);
    proof {
        let first = merged(Seq::empty(), texts(primary@));
        merged_is_distinct_union(Seq::empty(), texts(primary@));
        merged_is_distinct_union(first, texts(direct@));
        assert forall|x: Seq<char>| #[trigger]
            texts(out@).contains(x) <==> texts(primary@).contains(x) || texts(direct@).contains(
                x,
            ) by {
            assert(!Seq::<Seq<char>>::empty().contains(x));
            assert(first.contains(x) <==> texts(primary@).contains(x));
        }
    }
    out
}

/// The tasks of one intent: one per destination, in the audience's order,
/// each with the same signed payload, no attempt made, the first one due
/// at `now`.
pub open spec fn tasks_for(
    intent_id: u64,
    signed_payload: String,
    audience: Seq<String>,
    now: u64,
) -> Seq<DeliveryTask> {
    Seq::new(
        audience.len(),
        |i: int|
            DeliveryTask {
                destination_inbox_url: audience[i],
                signed_payload,
                attempt_count: 0,
                next_attempt_at: now,
                intent_id,
                status: TaskStatus::Pending,
            },
    )
}

/// Appends the tasks of one intent to the delivery queue, behind the tasks
/// of every intent dispatched before it.
pub fn enqueue_deliveries(
    queue: &mut Vec<DeliveryTask>,
    intent_id: u64,
    signed_payload: &String,
    audience: &Vec<String>,
    now: u64,
)
    ensures
        final(queue)@ == old(queue)@ + tasks_for(intent_id, *signed_payload, audience@, now),
{
    let mut i: usize = 0;
    assert(queue@ =~= old(queue)@ + tasks_for(intent_id, *signed_payload, audience@, now).take(0));
    while i < audience.len()
        invariant
            i <= audience@.len(),
            queue@ == old(queue)@ + tasks_for(intent_id, *signed_payload, audience@, now).take(
                i as int,
            ),
        decreases audience@.len() - i,
    {
        let task = DeliveryTask::new(audience[i].clone(), signed_payload.clone(), intent_id, now);
        queue.push(task);
        assert(queue@ =~= old(queue)@ + tasks_for(intent_id, *signed_payload, audience@, now).take(
            i + 1,
        ));
        i += 1;
    }
    assert(tasks_for(intent_id, *signed_payload, audience@, now).take(audience@.len() as int)
        =~= tasks_for(intent_id, *signed_payload, audience@, now));
}

/// Whether the task at `i` may be attempted at `now`: it is due, and no
/// task queued before it for the same destination is still pending.
/// Tasks for other destinations never hold it back.
pub open spec fn may_attempt(queue: Seq<DeliveryTask>, i: int, now: u64) -> bool {
    &&& 0 <= i < queue.len()
    &&& due(queue[i], now)
    &&& forall|j: int|
        0 <= j < i && (#[trigger] queue[j]).destination_inbox_url@ == queue[i].destination_inbox_url@
            ==> queue[j].status != TaskStatus::Pending
}

/// Whether the task at `i` may be attempted at `now`.
pub fn can_attempt(queue: &Vec<DeliveryTask>, i: usize, now: u64) -> (b: bool)
    ensures
        b == may_attempt(queue@, i as int, now),
{
    if i >= queue.len() {
        return false;
    }
    if !queue[i].is_due(now) {
        return false;
    }
    let mut j: usize = 0;
    while j < i
        invariant
            j <= i < queue@.len(),
            forall|k: int|
                0 <= k < j && (#[trigger] queue@[k]).destination_inbox_url@
                    == queue@[i as int].destination_inbox_url@ ==> queue@[k].status
                    != TaskStatus::Pending,
        decreases i - j,
    {
        if queue[j].destination_inbox_url == queue[i].destination_inbox_url && !queue[j].is_terminal() {
            return false;
        }
        j += 1;
    }
    true
}

/// Intents leave the queue in the order in which they were accepted: of
/// two intents submitted one after the other, the first stands before the
/// second, and is taken first.
pub proof fn submission_order_is_kept(
    pending: Seq<OutboundActivityIntent>,
    a: OutboundActivityIntent,
    b: OutboundActivityIntent,
)
    ensures
        pending.push(a).push(b)[pending.len() as int] == a,
        pending.push(a).push(b)[pending.len() as int + 1] == b,
        pending.len() == 0 ==> pending.push(a).push(b).first() == a && pending.push(a).push(
            b,
        ).drop_first().first() == b,
        pending.len() > 0 ==> pending.push(a).push(b).drop_first() == pending.drop_first().push(
            a,
        ).push(b),
{
    if pending.len() > 0 {
        assert(pending.push(a).push(b).drop_first() =~= pending.drop_first().push(a).push(b));
    }
}

/// The tasks of an intent dispatched earlier stand before those of one
/// dispatched later, and for a shared destination the later one is not
/// attempted while the earlier one is pending.
pub proof fn earlier_delivery_goes_first(queue: Seq<DeliveryTask>, a: int, b: int, now: u64)
    requires
        0 <= a < b < queue.len(),
        queue[a].destination_inbox_url@ == queue[b].destination_inbox_url@,
        queue[a].status == TaskStatus::Pending,
    ensures
        !may_attempt(queue, b, now),
{
}

/// A task is never held back by a task for another destination: if it is
/// due and first among the pending tasks of its own destination, it may be
/// attempted whatever else the queue holds.
pub proof fn other_destinations_do_not_block(queue: Seq<DeliveryTask>, i: int, now: u64)
    requires
        0 <= i < queue.len(),
        due(queue[i], now),
        forall|j: int|
            0 <= j < i && queue[j].status == TaskStatus::Pending ==> (
            #[trigger] queue[j]).destination_inbox_url@ != queue[i].destination_inbox_url@,
    ensures
        may_attempt(queue, i, now),
{
}

} // verus!
