//! The cooperative executor: which task is polled next, and when the
//! processor rests.
//!
//! The executor keeps the identifiers; the continuations and their wakers
//! belong to whoever polls them.

use std::collections::VecDeque;
use vstd::prelude::*;

verus! {

/// Identifier of a task. Identifiers are handed out in increasing order and
/// never twice.
#[derive(Debug, Clone, Copy, PartialEq, Eq, Structural)]
pub struct TaskId(pub u64);

/// What the executor is to do next.
#[derive(Debug, Clone, Copy, PartialEq, Eq, Structural)]
pub enum Action {
    /// Poll the continuation that has this identifier, and call `complete` if it
    /// has come to its end.
    Poll(TaskId),
    /// No task is ready, but some live: halt the processor with interrupts
    /// enabled until the next interrupt.
    Halt,
    /// No task lives: leave the run loop.
    Exit,
}

/// Position of the first identifier of a queue from `from` on that belongs
/// to a live task, or the length of the queue where none does.
pub open spec fn first_live(ready: Seq<u64>, live: Seq<u64>, from: int) -> int
    decreases ready.len() - from,
{
    if from < 0 || from >= ready.len() {
        ready.len() as int
    } else if live.contains(ready[from]) {
        from
    } else {
        first_live(ready, live, from + 1)
    }
}

/// A queue of ready tasks and the set of live tasks.
pub struct Executor {
    ready: VecDeque<u64>,
    live: Vec<u64>,
    next_id: u64,
}

impl Executor {
    /// The identifiers that wait to be polled, the oldest first. An
    /// identifier may wait more than once, and may outlive its task.
    pub closed spec fn ready(&self) -> Seq<u64> {
        self.ready@
    }

    /// The identifiers of the tasks that have been spawned and have not come
    /// to their end, in the order in which they were spawned.
    pub closed spec fn live(&self) -> Seq<u64> {
        self.live@
    }

    /// Number of tasks spawned so far, which is the next identifier.
    pub closed spec fn spawned(&self) -> u64 {
        self.next_id
    }

    /// What every executor made by `new` satisfies, and every operation
    /// keeps: no task is live twice, and every live task has an identifier
    /// that was handed out.
    pub open spec fn well_formed(&self) -> bool {
        &&& self.live().no_duplicates()
        &&& forall|i: int| 0 <= i < self.live().len() ==> self.live()[i] < self.spawned()
    }

    /// An executor without tasks.
    pub fn new() -> (executor: Self)
        ensures
            executor.well_formed(),
            executor.ready() == Seq::<u64>::empty(),
            executor.live() == Seq::<u64>::empty(),
            executor.spawned() == 0,
    {
        Executor { ready: VecDeque::new(), live: Vec::new(), next_id: 0 }
    }

    /// Whether another task can be spawned: an identifier is left.
    pub fn can_spawn(&self) -> (possible: bool)
        ensures
            possible == (self.spawned() < u64::MAX),
    {
        self.next_id < u64::MAX
    }

    /// Takes a task in: gives it a fresh identifier, counts it among the
    /// live tasks and queues it to be polled.
    pub fn spawn(&mut self) -> (id: TaskId)
        requires
            old(self).well_formed(),
            old(self).spawned() < u64::MAX,
        ensures
            final(self).well_formed(),
            id.0 == old(self).spawned(),
            !old(self).live().contains(id.0),
            final(self).spawned() == old(self).spawned() + 1,
            final(self).live() == old(self).live().push(id.0),
            final(self).ready() == old(self).ready().push(id.0),
    {
        let id: u64 = self.next_id;
        self.next_id = id + 1;
        self.live.push(id);
        self.ready.push_back(id);
        proof {
            let before = old(self).live();
            assert(!before.contains(id)) by {
                if before.contains(id) {
                    let i = choose|i: int| 0 <= i < before.len() && before[i] == id;
                    assert(before[i] < id);
                }
            }
            assert(before.push(id).no_duplicates());
        }
        TaskId(id)
    }

    /// Queues a task to be polled again. This is what the waker of the task
    /// does when it is signalled.
    pub fn wake(&mut self, id: TaskId)
        ensures
            final(self).spawned() == old(self).spawned(),
            final(self).live() == old(self).live(),
            final(self).ready() == old(self).ready().push(id.0),
    {
        self.ready.push_back(id.0);
    }

    /// Whether a task is live.
    pub fn is_live(&self, id: TaskId) -> (live: bool)
        ensures
            live == self.live().contains(id.0),
    {
        let mut i: usize = 0;
        while i < self.live.len()
            invariant
                i <= self.live.len(),
                forall|k: int| 0 <= k < i ==> self.live@[k] != id.0,
            decreases self.live.len() - i,
        {
            if self.live[i] == id.0 {
                return true;
            }
            i += 1;
        }
        false
    }

    /// Decides what to do next. Identifiers are taken from the front of the
    /// queue until one belongs to a live task: that task is to be polled.
    /// Where the queue runs empty, the processor halts if a task lives, and
    /// the run loop is left if none does.
    pub fn next(&mut self) -> (action: Action)
        ensures
            final(self).spawned() == old(self).spawned(),
            final(self).live() == old(self).live(),
            ({
                let found = first_live(old(self).ready(), old(self).live(), 0);
                if found < old(self).ready().len() {
                    &&& action == Action::Poll(TaskId(old(self).ready()[found]))
                    &&& final(self).ready() == old(self).ready().skip(found + 1)
                } else {
                    &&& final(self).ready() == Seq::<u64>::empty()
                    &&& action == (if old(self).live().len() > 0 {
                        Action::Halt
                    } else {
                        Action::Exit
                    })
                }
            }),
    {
        let ghost mut taken: int = 0;
        loop
            invariant
                self.next_id == old(self).next_id,
                self.live@ == old(self).live@,
                0 <= taken <= old(self).ready@.len(),
                self.ready@ == old(self).ready@.skip(taken),
                first_live(old(self).ready@, old(self).live@, taken) == first_live(
                    old(self).ready@,
                    old(self).live@,
                    0,
                ),
            decreases self.ready@.len(),
        {
            match self.ready.pop_front() {
                Some(id) => {
                    assert(id == old(self).ready@[taken]);
                    assert(self.ready@ =~= old(self).ready@.skip(taken + 1));
                    if self.is_live(TaskId(id)) {
                        return Action::Poll(TaskId(id));
                    }
                    proof {
                        taken = taken + 1;
                    }
                },
                None => {
                    assert(self.ready@ =~= Seq::<u64>::empty());
                    if self.live.len() > 0 {
                        return Action::Halt;
                    } else {
                        return Action::Exit;
                    }
                },
            }
        }
    }

    /// Takes a task that has come to its end out of the live tasks. The
    /// other tasks keep their order. A task that is not live is left out
    /// already.
    pub fn complete(&mut self, id: TaskId)
        requires
            old(self).well_formed(),
        ensures
            final(self).well_formed(),
            final(self).spawned() == old(self).spawned(),
            final(self).ready() == old(self).ready(),
            final(self).live() == old(self).live().filter(|other: u64| other != id.0),
            !final(self).live().contains(id.0),
    {
        let mut i: usize = 0;
        while i < self.live.len()
            invariant
                old(self).well_formed(),
                i <= self.live.len(),
                self.live@ == old(self).live@,
                self.ready@ == old(self).ready@,
                self.next_id == old(self).next_id,
                forall|k: int| 0 <= k < i ==> self.live@[k] != id.0,
            decreases self.live.len() - i,
        {
            if self.live[i] == id.0 {
                self.live.remove(i);
                proof {
                    removal_is_filter(old(self).live@, i as int, id.0);
                }
                return ;
            }
            i += 1;
        }
        proof {
            absent_is_filter(old(self).live@, id.0);
        }
    }
}

/// Taking the one occurrence of a value out of a sequence without duplicates
/// leaves the sequence without that value, which has no duplicates either.
proof fn removal_is_filter(live: Seq<u64>, index: int, id: u64)
    requires
        live.no_duplicates(),
        0 <= index < live.len(),
        live[index] == id,
    ensures
        live.remove(index) == live.filter(|other: u64| other != id),
        live.remove(index).no_duplicates(),
        !live.remove(index).contains(id),
        forall|i: int| 0 <= i < live.remove(index).len() ==> live.contains(live.remove(index)[i]),
    decreases live.len(),
{
    let keep = |other: u64| other != id;
    if index == live.len() - 1 {
        let front = live.drop_last();
        assert(live.remove(index) =~= front);
        assert(!front.contains(id)) by {
            if front.contains(id) {
                let i = choose|i: int| 0 <= i < front.len() && front[i] == id;
                assert(live[i] == live[index]);
            }
        }
        absent_is_filter(front, id);
        reveal(Seq::filter);
        assert(live.filter(keep) == front.filter(keep));
    } else {
        let front = live.drop_last();
        removal_is_filter(front, index, id);
        reveal(Seq::filter);
        assert(live.remove(index) =~= front.remove(index).push(live.last()));
        assert(live.filter(keep) == front.filter(keep).push(live.last()));
        let rest = front.remove(index);
        assert(!rest.contains(live.last())) by {
            if rest.contains(live.last()) {
                let i = choose|i: int| 0 <= i < rest.len() && rest[i] == live.last();
                assert(front.contains(rest[i]));
                let j = choose|j: int| 0 <= j < front.len() && front[j] == rest[i];
                assert(live[j] == live[live.len() - 1]);
            }
        }
        assert(rest.push(live.last()).no_duplicates());
        assert(!rest.push(live.last()).contains(id)) by {
            if rest.push(live.last()).contains(id) {
                let i = choose|i: int|
                    0 <= i < rest.push(live.last()).len() && rest.push(live.last())[i] == id;
                if i < rest.len() {
                    assert(rest.contains(id));
                } else {
                    assert(live[live.len() - 1] == live[index]);
                }
            }
        }
        assert forall|i: int| 0 <= i < live.remove(index).len() implies live.contains(
            live.remove(index)[i],
        ) by {
            if i < rest.len() {
                assert(front.contains(rest[i]));
                let j = choose|j: int| 0 <= j < front.len() && front[j] == rest[i];
                assert(live[j] == rest[i]);
            } else {
                assert(live[live.len() - 1] == live.last());
            }
        }
    }
}

/// Filtering a value out of a sequence that does not hold it changes
/// nothing.
proof fn absent_is_filter(live: Seq<u64>, id: u64)
    requires
        forall|i: int| 0 <= i < live.len() ==> live[i] != id,
    ensures
        live.filter(|other: u64| other != id) == live,
    decreases live.len(),
{
    reveal(Seq::filter);
    if live.len() > 0 {
        absent_is_filter(live.drop_last(), id);
        assert(live.drop_last().push(live.last()) =~= live);
    }
}

} // verus!
