use std::collections::VecDeque;
use vstd::prelude::*;

verus! {

/// The sequence with the occurrence of `id` taken out, if there is one.
pub open spec fn without(s: Seq<usize>, id: usize) -> Seq<usize> {
    if s.contains(id) {
        s.remove(s.index_of(id))
    } else {
        s
    }
}

/// The FIFO queue of spawned tasks that are ready for a retry.
///
/// Tasks are named by the index at which they were registered. A task is
/// queued at most once at a time, and a task that has finished is never
/// queued again.
pub struct RunQueue {
    order: VecDeque<usize>,
    queued: Vec<bool>,
    finished: Vec<bool>,
}

impl RunQueue {
    /// The queued tasks, front first.
    pub closed spec fn order(&self) -> Seq<usize> {
        self.order@
    }

    /// For each registered task, whether it sits in the queue.
    pub closed spec fn queued(&self) -> Seq<bool> {
        self.queued@
    }

    /// For each registered task, whether it has finished.
    pub closed spec fn finished(&self) -> Seq<bool> {
        self.finished@
    }

    /// How many tasks have been registered.
    pub open spec fn tasks(&self) -> nat {
        self.finished().len()
    }

    pub open spec fn wf(&self) -> bool {
        &&& self.queued().len() == self.finished().len()
        &&& self.order().no_duplicates()
        &&& forall|i: int|
            0 <= i < self.order().len() ==> (#[trigger] self.order()[i]) < self.tasks()
        &&& forall|id: usize|
            id < self.tasks() ==> (#[trigger] self.queued()[id as int] <==> self.order().contains(
                id,
            ))
        &&& forall|id: usize|
            id < self.tasks() ==> #[trigger] self.finished()[id as int] ==> !self.queued()[id as int]
    }

    /// An empty queue with no task registered.
    pub fn new() -> (r: RunQueue)
        ensures
            r.wf(),
            r.order() == Seq::<usize>::empty(),
            r.tasks() == 0,
    {
        RunQueue { order: VecDeque::new(), queued: Vec::new(), finished: Vec::new() }
    }

    /// Whether no task is ready.
    pub fn is_empty(&self) -> (r: bool)
        requires
            self.wf(),
        ensures
            r == (self.order().len() == 0),
    {
        self.order.len() == 0
    }

    /// How many tasks are ready.
    pub fn len(&self) -> (r: usize)
        requires
            self.wf(),
        ensures
            r == self.order().len(),
    {
        self.order.len()
    }

    /// How many tasks have been registered.
    pub fn task_count(&self) -> (r: usize)
        requires
            self.wf(),
        ensures
            r == self.tasks(),
    {
        self.finished.len()
    }

    /// Whether the task has finished.
    pub fn is_finished(&self, id: usize) -> (r: bool)
        requires
            self.wf(),
            id < self.tasks(),
        ensures
            r == self.finished()[id as int],
    {
        self.finished[id]
    }

    /// Registers a new task and queues it at the back; returns its index.
    pub fn add_task(&mut self) -> (id: usize)
        requires
            old(self).wf(),
        ensures
            final(self).wf(),
            id == old(self).tasks(),
            final(self).finished() == old(self).finished().push(false),
            final(self).order() == old(self).order().push(id),
    {
        let id = self.finished.len();
        proof {
            assert(!self.order@.contains(id)) by {
                if self.order@.contains(id) {
                    let i = choose|i: int| 0 <= i < self.order@.len() && self.order@[i] == id;
                    assert(self.order@[i] < self.finished@.len());
                }
            }
        }
        self.finished.push(false);
        self.queued.push(true);
        self.order.push_back(id);
        proof {
            assert(self.order@ == old(self).order@.push(id));
            assert forall|x: usize| x < self.finished@.len() implies (#[trigger] self.queued@[x as int]
                <==> self.order@.contains(x)) by {
                if x < id {
                    if old(self).order@.contains(x) {
                        let i = choose|i: int|
                            0 <= i < old(self).order@.len() && old(self).order@[i] == x;
                        assert(self.order@[i] == x);
                    }
                    if self.order@.contains(x) {
                        let i = choose|i: int|
                            0 <= i < self.order@.len() && self.order@[i] == x;
                        assert(i < old(self).order@.len());
                        assert(old(self).order@[i] == x);
                    }
                } else {
                    assert(self.order@[self.order@.len() - 1] == id);
                }
            }
        }
        id
    }

    /// A task's resumption handle fired: the task is queued at the back
    /// unless it is queued already or has finished. Returns whether it was.
    pub fn wake(&mut self, id: usize) -> (pushed: bool)
        requires
            old(self).wf(),
            id < old(self).tasks(),
        ensures
            final(self).wf(),
            final(self).finished() == old(self).finished(),
            pushed == (!old(self).order().contains(id) && !old(self).finished()[id as int]),
            final(self).order() == if pushed {
                old(self).order().push(id)
            } else {
                old(self).order()
            },
    {
        if self.queued[id] || self.finished[id] {
            return false;
        }
        self.queued.set(id, true);
        self.order.push_back(id);
        proof {
            assert(self.order@ == old(self).order@.push(id));
            assert forall|x: usize| x < self.finished@.len() implies (#[trigger] self.queued@[x as int]
                <==> self.order@.contains(x)) by {
                if x != id {
                    if old(self).order@.contains(x) {
                        let i = choose|i: int|
                            0 <= i < old(self).order@.len() && old(self).order@[i] == x;
                        assert(self.order@[i] == x);
                    }
                    if self.order@.contains(x) {
                        let i = choose|i: int|
                            0 <= i < self.order@.len() && self.order@[i] == x;
                        assert(i < old(self).order@.len());
                        assert(old(self).order@[i] == x);
                    }
                } else {
                    assert(self.order@[self.order@.len() - 1] == id);
                }
            }
        }
        true
    }

    /// Takes the task at the front, if any.
    pub fn pop_front(&mut self) -> (r: Option<usize>)
        requires
            old(self).wf(),
        ensures
            final(self).wf(),
            final(self).finished() == old(self).finished(),
            match r {
                Some(id) => {
                    &&& old(self).order().len() > 0
                    &&& id == old(self).order()[0]
                    &&& final(self).order() == old(self).order().drop_first()
                },
                None => {
                    &&& old(self).order().len() == 0
                    &&& final(self).order() == old(self).order()
                },
            },
    {
        match self.order.pop_front() {
            None => None,
            Some(id) => {
                assert(old(self).order@[0] == id);
                self.queued.set(id, false);
                proof {
                    assert forall|x: usize| x < self.finished@.len() implies (
                    #[trigger] self.queued@[x as int] <==> self.order@.contains(x)) by {
                        if x != id {
                            if old(self).order@.contains(x) {
                                let i = choose|i: int|
                                    0 <= i < old(self).order@.len() && old(self).order@[i]
                                        == x;
                                assert(old(self).order@[0] == id);
                                assert(i != 0);
                                assert(self.order@[i - 1] == x);
                            }
                            if self.order@.contains(x) {
                                let i = choose|i: int|
                                    0 <= i < self.order@.len() && self.order@[i] == x;
                                assert(old(self).order@[i + 1] == x);
                            }
                        } else {
                            if self.order@.contains(x) {
                                let i = choose|i: int|
                                    0 <= i < self.order@.len() && self.order@[i] == x;
                                assert(old(self).order@[i + 1] == x);
                            }
                        }
                    }
                    assert forall|i: int| 0 <= i < self.order@.len() implies (#[trigger] self.order@[i])
                        < self.finished@.len() by {
                        assert(old(self).order@[i + 1] == self.order@[i]);
                    }
                }
                Some(id)
            },
        }
    }
    /// Marks the task as finished and takes it out of the queue if it was
    /// queued again while it ran. Later wakes of it are ignored.
    pub fn finish(&mut self, id: usize)
        requires
            old(self).wf(),
            id < old(self).tasks(),
        ensures
            final(self).wf(),
            final(self).finished() == old(self).finished().update(id as int, true),
            final(self).order() == without(old(self).order(), id),
    {
        if self.queued[id] {
            let ghost k = choose|k: int| 0 <= k < self.order@.len() && self.order@[k] == id;
            let n: usize = self.order.len();
            let mut i: usize = 0;
            while self.order[i] != id
                invariant
                    self.wf(),
                    *self == *old(self),
                    0 <= i <= k < self.order@.len(),
                    self.order@[k] == id,
                    self.order@.len() == n,
                decreases k - i,
            {
                i = i + 1;
            }
            assert(i == k) by {
                if i != k {
                    assert(self.order@[i as int] == self.order@[k]);
                }
            }
            self.order.remove(i);
            self.queued.set(id, false);
            proof {
                let o = old(self).order@;
                let j = o.index_of(id);
                assert(o[j] == id);
                assert(j == k);
                assert forall|j: int| 0 <= j < self.order@.len() implies self.order@[j] == if j
                    < k {
                    o[j]
                } else {
                    o[j + 1]
                } by {}
                assert forall|x: usize| x < self.finished@.len() implies (
                #[trigger] self.queued@[x as int] <==> self.order@.contains(x)) by {
                    if x != id {
                        if o.contains(x) {
                            let j = choose|j: int| 0 <= j < o.len() && o[j] == x;
                            if j < k {
                                assert(self.order@[j] == x);
                            } else {
                                assert(j != k);
                                assert(self.order@[j - 1] == x);
                            }
                        }
                        if self.order@.contains(x) {
                            let j = choose|j: int| 0 <= j < self.order@.len() && self.order@[j] == x;
                            if j < k {
                                assert(o[j] == x);
                            } else {
                                assert(o[j + 1] == x);
                            }
                        }
                    } else {
                        if self.order@.contains(x) {
                            let j = choose|j: int| 0 <= j < self.order@.len() && self.order@[j] == x;
                            if j < k {
                                assert(o[j] == x);
                            } else {
                                assert(o[j + 1] == x);
                            }
                        }
                    }
                }
                assert forall|j: int| 0 <= j < self.order@.len() implies (#[trigger] self.order@[j])
                    < self.finished@.len() by {
                    if j >= k {
                        assert(o[j + 1] == self.order@[j]);
                    } else {
                        assert(o[j] == self.order@[j]);
                    }
                }
                assert forall|a: int, b: int|
                    0 <= a < self.order@.len() && 0 <= b < self.order@.len() && a != b implies
                    self.order@[a] != self.order@[b] by {
                    let a1 = if a < k { a } else { a + 1 };
                    let b1 = if b < k { b } else { b + 1 };
                    assert(o[a1] == self.order@[a]);
                    assert(o[b1] == self.order@[b]);
                }
            }
        }
        self.finished.set(id, true);
    }
}

} // verus!
