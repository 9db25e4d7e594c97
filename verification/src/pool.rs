//! The delivery worker pool: the queue of delivery tasks, which of them
//! are being attempted, and the bound on how many may be attempted at the
//! same time.

use vstd::prelude::*;
use crate::delivery::{
    after_attempt, classify, outcome_of, AttemptResult, DeliveryTask, RetryPolicy, TaskStatus,
};
use crate::dispatch::{
    audience, audience_of, can_attempt, enqueue_deliveries, may_attempt, tasks_for, texts,
};
use crate::error::ResolveError;

verus! {

/// The number of `true` items.
pub open spec fn count(flags: Seq<bool>) -> nat
    decreases flags.len(),
{
    if flags.len() == 0 {
        0
    } else {
        count(flags.drop_last()) + if flags.last() {
            1nat
        } else {
            0nat
        }
    }
}

/// Changing one flag changes the count by that flag's change.
pub proof fn count_update(flags: Seq<bool>, i: int, b: bool)
    requires
        0 <= i < flags.len(),
    ensures
        count(flags.update(i, b)) + (if flags[i] { 1int } else { 0int }) == count(flags) + (if b {
            1int
        } else {
            0int
        }),
    decreases flags.len(),
{
    if i == flags.len() - 1 {
        assert(flags.update(i, b).drop_last() =~= flags.drop_last());
    } else {
        assert(flags.update(i, b).drop_last() =~= flags.drop_last().update(i, b));
        count_update(flags.drop_last(), i, b);
    }
}

/// Appending flags that are all `false` leaves the count as it was.
pub proof fn count_append_false(flags: Seq<bool>, more: Seq<bool>)
    requires
        forall|i: int| 0 <= i < more.len() ==> !more[i],
    ensures
        count(flags + more) == count(flags),
    decreases more.len(),
{
    if more.len() == 0 {
        assert(flags + more =~= flags);
    } else {
        assert((flags + more).drop_last() =~= flags + more.drop_last());
        count_append_false(flags, more.drop_last());
    }
}

/// The task at `i` can be claimed at `now`: it may be attempted and no
/// worker is attempting it.
pub open spec fn claimable(tasks: Seq<DeliveryTask>, attempting: Seq<bool>, i: int, now: u64) -> bool {
    may_attempt(tasks, i, now) && 0 <= i < attempting.len() && !attempting[i]
}

/// The inboxes that an intent reaches, by relation: those of the followers
/// of a community or the participants of a conversation, and those of the
/// actors addressed directly. An inbox may occur in both, and more than
/// once.
pub struct Relations {
    pub primary: Vec<String>,
    pub direct: Vec<String>,
}

/// The queue of delivery tasks and the workers' claims on them.
pub struct DeliveryPool {
    queue: Vec<DeliveryTask>,
    attempting: Vec<bool>,
    active: usize,
    workers: usize,
    policy: RetryPolicy,
}

impl DeliveryPool {
    /// The tasks, in the order in which they were queued.
    pub closed spec fn tasks(self) -> Seq<DeliveryTask> {
        self.queue@
    }

    /// For each task, whether a worker is attempting it.
    pub closed spec fn attempting(self) -> Seq<bool> {
        self.attempting@
    }

    /// The number of workers.
    pub closed spec fn workers(self) -> usize {
        self.workers
    }

    pub closed spec fn policy(self) -> RetryPolicy {
        self.policy
    }

    /// No more tasks are being attempted than there are workers, and only
    /// pending tasks are.
    pub closed spec fn wf(self) -> bool {
        &&& self.attempting@.len() == self.queue@.len()
        &&& self.active == count(self.attempting@)
        &&& self.active <= self.workers
        &&& forall|i: int|
            0 <= i < self.queue@.len() && #[trigger] self.attempting@[i] ==> self.queue@[i].status
                == TaskStatus::Pending
    }

    /// What `wf` means for the pool's view.
    pub proof fn wf_means(self)
        requires
            self.wf(),
        ensures
            self.attempting().len() == self.tasks().len(),
            count(self.attempting()) <= self.workers(),
            forall|i: int|
                0 <= i < self.tasks().len() && #[trigger] self.attempting()[i]
                    ==> self.tasks()[i].status == TaskStatus::Pending,
    {
    }

    /// An empty pool of `workers` workers.
    pub fn new(workers: usize, policy: RetryPolicy) -> (p: DeliveryPool)
        ensures
            p.wf(),
            p.tasks() == Seq::<DeliveryTask>::empty(),
            p.attempting() == Seq::<bool>::empty(),
            p.workers() == workers,
            p.policy() == policy,
    {
        DeliveryPool { queue: Vec::new(), attempting: Vec::new(), active: 0, workers, policy }
    }

    /// The number of tasks, ended ones included.
    pub fn len(&self) -> (n: usize)
        ensures
            n == self.tasks().len(),
    {
        self.queue.len()
    }

    /// The task at `i`, if there is one. Ended tasks stay where they are,
    /// so that a failure remains on record.
    pub fn task(&self, i: usize) -> (r: Option<&DeliveryTask>)
        ensures
            r is Some <==> i < self.tasks().len(),
            r is Some ==> *r->Some_0 == self.tasks()[i as int],
    {
        if i < self.queue.len() {
            Some(&self.queue[i])
        } else {
            None
        }
    }

    /// Queues the tasks of one intent, one per destination, behind every
    /// task queued before. Nothing is dropped, however many tasks wait.
    pub fn enqueue(&mut self, intent_id: u64, signed_payload: &String, audience: &Vec<String>, now: u64)
        requires
            old(self).wf(),
        ensures
            final(self).wf(),
            final(self).tasks() == old(self).tasks() + tasks_for(
                intent_id,
                *signed_payload,
                audience@,
                now,
            ),
            final(self).attempting() == old(self).attempting() + Seq::new(
                audience@.len(),
                |i: int| false,
            ),
            final(self).workers() == old(self).workers(),
            final(self).policy() == old(self).policy(),
    {
        enqueue_deliveries(&mut self.queue, intent_id, signed_payload, audience, now);
        let ghost more = Seq::new(audience@.len(), |i: int| false);
        let mut i: usize = 0;
        assert(self.attempting@ =~= old(self).attempting@ + more.take(0));
        while i < audience.len()
            invariant
                i <= audience@.len(),
                more == Seq::new(audience@.len(), |i: int| false),
                self.attempting@ == old(self).attempting@ + more.take(i as int),
                self.queue@ == old(self).queue@ + tasks_for(
                    intent_id,
                    *signed_payload,
                    audience@,
                    now,
                ),
                self.active == old(self).active,
                self.workers == old(self).workers,
                self.policy == old(self).policy,
            decreases audience@.len() - i,
        {
            self.attempting.push(false);
            assert(self.attempting@ =~= old(self).attempting@ + more.take(i + 1));
            i += 1;
        }
        proof {
            assert(more.take(audience@.len() as int) =~= more);
            count_append_false(old(self).attempting@, more);
        }
    }

    /// Turns one intent into delivery tasks: one per distinct inbox of its
    /// relations, all with the one signed payload, queued behind every
    /// task queued before; the number of tasks is returned. Where the
    /// relations could not be worked out the intent is dropped: nothing is
    /// queued and the failure is handed back to be logged.
    pub fn dispatch(
        &mut self,
        intent_id: u64,
        signed_payload: &String,
        relations: &Result<Relations, ResolveError>,
        now: u64,
    ) -> (r: Result<usize, ResolveError>)
        requires
            old(self).wf(),
        ensures
            final(self).wf(),
            final(self).workers() == old(self).workers(),
            final(self).policy() == old(self).policy(),
            match *relations {
                Err(e) => r == Err::<usize, ResolveError>(e) && final(self).tasks() == old(
                    self,
                ).tasks() && final(self).attempting() == old(self).attempting(),
                Ok(found) => r == Ok::<usize, ResolveError>(
                    audience_of(texts(found.primary@), texts(found.direct@)).len() as usize,
                ) && exists|to: Seq<String>|
                    {
                        &&& #[trigger] texts(to) == audience_of(
                            texts(found.primary@),
                            texts(found.direct@),
                        )
                        &&& final(self).tasks() == old(self).tasks() + tasks_for(
                            intent_id,
                            *signed_payload,
                            to,
                            now,
                        )
                        &&& final(self).attempting() == old(self).attempting() + Seq::new(
                            to.len(),
                            |i: int| false,
                        )
                    },
            },
    {
        match relations {
            Err(e) => Err(*e),
            Ok(found) => {
                let to = audience(&found.primary, &found.direct);
                self.enqueue(intent_id, signed_payload, &to, now);
                assert(texts(to@).len() == to@.len());
                Ok(to.len())
            },
        }
    }

    /// Claims a task for a free worker: the first in the queue that may
    /// be attempted at `now` and is not being attempted. No task is
    /// claimed while every worker is busy.
    pub fn claim(&mut self, now: u64) -> (r: Option<usize>)
        requires
            old(self).wf(),
        ensures
            final(self).wf(),
            final(self).tasks() == old(self).tasks(),
            final(self).workers() == old(self).workers(),
            final(self).policy() == old(self).policy(),
            r is Some <==> count(old(self).attempting()) < old(self).workers() && exists|i: int|
                claimable(old(self).tasks(), old(self).attempting(), i, now),
            r is Some ==> claimable(old(self).tasks(), old(self).attempting(), r->Some_0 as int, now)
                && (forall|j: int|
                0 <= j < r->Some_0 ==> !claimable(old(self).tasks(), old(self).attempting(), j, now))
                && final(self).attempting() == old(self).attempting().update(
                r->Some_0 as int,
                true,
            ),
            r is None ==> final(self).attempting() == old(self).attempting(),
    {
        if self.active >= self.workers {
            return None;
        }
        let mut i: usize = 0;
        while i < self.queue.len()
            invariant
                i <= self.queue@.len(),
                *self == *old(self),
                self.wf(),
                self.active < self.workers,
                forall|j: int| 0 <= j < i ==> !claimable(self.queue@, self.attempting@, j, now),
            decreases self.queue@.len() - i,
        {
            if !self.attempting[i] && can_attempt(&self.queue, i, now) {
                proof {
                    count_update(self.attempting@, i as int, true);
                    assert(claimable(old(self).tasks(), old(self).attempting(), i as int, now));
                }
                self.attempting.set(i, true);
                self.active = self.active + 1;
                return Some(i);
            }
            i += 1;
        }
        None
    }

    /// Records how the attempt on the claimed task `i` ended, and frees
    /// its worker. Where no worker is attempting task `i`, nothing changes
    /// and `None` is returned.
    pub fn complete(&mut self, i: usize, result: AttemptResult, now: u64) -> (r: Option<TaskStatus>)
        requires
            old(self).wf(),
        ensures
            final(self).wf(),
            final(self).workers() == old(self).workers(),
            final(self).policy() == old(self).policy(),
            r is Some <==> i < old(self).attempting().len() && old(self).attempting()[i as int],
            r is Some ==> final(self).tasks() == old(self).tasks().update(
                i as int,
                after_attempt(old(self).tasks()[i as int], outcome_of(result), now, old(self).policy()),
            ) && final(self).attempting() == old(self).attempting().update(i as int, false)
                && r->Some_0 == final(self).tasks()[i as int].status,
            r is None ==> final(self).tasks() == old(self).tasks() && final(self).attempting() == old(
                self,
            ).attempting(),
    {
        if i >= self.attempting.len() || !self.attempting[i] {
            return None;
        }
        proof {
            count_update(self.attempting@, i as int, false);
        }
        let mut task = self.queue.remove(i);
        let status = task.record_attempt(classify(result), now, &self.policy);
        self.queue.insert(i, task);
        self.attempting.set(i, false);
        self.active = self.active - 1;
        proof {
            assert(self.queue@ =~= old(self).queue@.update(i as int, task));
        }
        Some(status)
    }
}

/// However many tasks wait, no more are being attempted than there are
/// workers; and a task under attempt is not handed to a second worker.
pub proof fn claims_are_bounded_and_exclusive(
    tasks: Seq<DeliveryTask>,
    attempting: Seq<bool>,
    i: int,
    now: u64,
)
    requires
        0 <= i < attempting.len(),
        claimable(tasks, attempting, i, now),
    ensures
        count(attempting.update(i, true)) == count(attempting) + 1,
        !claimable(tasks, attempting.update(i, true), i, now),
{
    count_update(attempting, i, true);
}

} // verus!
