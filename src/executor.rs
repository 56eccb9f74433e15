use crate::queue::{without, RunQueue};
use crate::signal::{notify_spec, wait_spec, Signal, State, WaitOutcome};
use vstd::prelude::*;

verus! {

/// What the run loop does next.
#[derive(Debug, PartialEq, Eq)]
pub enum Step<T> {
    /// The top-level computation finished with this value: return it.
    Return(T),
    /// Retry the spawned task with this index once.
    Retry(usize),
    /// Nothing is queued: the loop waited on the signal, with this outcome.
    Park(WaitOutcome),
}

/// One step of draining: the front task is retried, or, once the queue is
/// empty, the loop waits on the signal.
pub open spec fn drain_spec<T>(order: Seq<usize>, s: State) -> (Seq<usize>, State, Step<T>) {
    if order.len() > 0 {
        (order.drop_first(), s, Step::Retry(order[0]))
    } else {
        (order, wait_spec(s).0, Step::Park(wait_spec(s).1))
    }
}

/// The state that one executor shares with the resumption handles of its
/// tasks: the run queue and the wake signal, guarded together by one lock.
pub struct Executor {
    queue: RunQueue,
    signal: Signal,
}

impl Executor {
    pub closed spec fn run_queue(&self) -> RunQueue {
        self.queue
    }

    pub closed spec fn signal_state(&self) -> State {
        self.signal@
    }

    /// The queued tasks, front first.
    pub open spec fn order(&self) -> Seq<usize> {
        self.run_queue().order()
    }

    /// For each spawned task, whether it has finished.
    pub open spec fn finished(&self) -> Seq<bool> {
        self.run_queue().finished()
    }

    /// How many tasks have been spawned.
    pub open spec fn tasks(&self) -> nat {
        self.run_queue().tasks()
    }

    /// The queue is consistent, and the loop is parked only while nothing
    /// is queued.
    pub open spec fn wf(&self) -> bool {
        &&& self.run_queue().wf()
        &&& self.signal_state() == State::Waiting ==> self.order().len() == 0
    }

    /// The state of a new run: nothing spawned, nothing pending.
    pub fn new() -> (r: Executor)
        ensures
            r.wf(),
            r.order() == Seq::<usize>::empty(),
            r.tasks() == 0,
            r.signal_state() == State::Empty,
    {
        Executor { queue: RunQueue::new(), signal: Signal::new() }
    }

    /// The state of the wake signal.
    pub fn signal_state_now(&self) -> (r: State)
        ensures
            r == self.signal_state(),
    {
        self.signal.state()
    }

    /// Whether the run loop is parked and must go on waiting.
    pub fn is_parked(&self) -> (r: bool)
        ensures
            r == (self.signal_state() == State::Waiting),
    {
        self.signal.is_waiting()
    }

    /// How many tasks have been spawned.
    pub fn task_count(&self) -> (r: usize)
        requires
            self.wf(),
        ensures
            r == self.tasks(),
    {
        self.queue.task_count()
    }

    /// How many tasks are queued.
    pub fn queued_len(&self) -> (r: usize)
        requires
            self.wf(),
        ensures
            r == self.order().len(),
    {
        self.queue.len()
    }

    /// Whether the task has finished.
    pub fn is_finished(&self, id: usize) -> (r: bool)
        requires
            self.wf(),
            id < self.tasks(),
        ensures
            r == self.finished()[id as int],
    {
        self.queue.is_finished(id)
    }

    /// The resumption handle of a task fired: the task is queued unless it
    /// is queued already or has finished, and then the signal is notified.
    /// Returns whether a parked thread must be woken.
    pub fn wake_task(&mut self, id: usize) -> (r: bool)
        requires
            old(self).wf(),
            id < old(self).tasks(),
        ensures
            final(self).wf(),
            final(self).finished() == old(self).finished(),
            final(self).order() == if !old(self).order().contains(id)
                && !old(self).finished()[id as int] {
                old(self).order().push(id)
            } else {
                old(self).order()
            },
            (final(self).signal_state(), r) == notify_spec(old(self).signal_state()),
    {
        self.queue.wake(id);
        self.signal.notify()
    }

    /// The resumption handle of the top-level computation fired: only the
    /// signal is notified, since the loop polls that computation every cycle.
    /// Returns whether a parked thread must be woken.
    pub fn wake_main(&mut self) -> (r: bool)
        requires
            old(self).wf(),
        ensures
            final(self).wf(),
            final(self).run_queue() == old(self).run_queue(),
            (final(self).signal_state(), r) == notify_spec(old(self).signal_state()),
    {
        self.signal.notify()
    }

    /// Takes the next queued task, or waits on the signal once nothing is
    /// queued.
    fn drain<T>(&mut self) -> (r: Step<T>)
        requires
            old(self).wf(),
        ensures
            final(self).wf(),
            final(self).finished() == old(self).finished(),
            (final(self).order(), final(self).signal_state(), r) == drain_spec::<T>(
                old(self).order(),
                old(self).signal_state(),
            ),
    {
        match self.queue.pop_front() {
            Some(id) => Step::Retry(id),
            None => Step::Park(self.signal.wait()),
        }
    }

    /// A retry of task `id` has returned; `done` says whether the task
    /// finished. A finished task is never retried again. Returns the next
    /// step of the drain.
    pub fn task_advanced<T>(&mut self, id: usize, done: bool) -> (r: Step<T>)
        requires
            old(self).wf(),
            id < old(self).tasks(),
            !old(self).finished()[id as int],
        ensures
            final(self).wf(),
            final(self).finished() == if done {
                old(self).finished().update(id as int, true)
            } else {
                old(self).finished()
            },
            ({
                let before = if done {
                    without(old(self).order(), id)
                } else {
                    old(self).order()
                };
                (final(self).order(), final(self).signal_state(), r) == drain_spec::<T>(
                    before,
                    old(self).signal_state(),
                )
            }),
    {
        if done {
            self.queue.finish(id);
        }
        self.drain()
    }
}

/// Registers a new task with the executor: it is queued at the back and the
/// signal is notified. Returns the task's index and whether a parked thread
/// must be woken.
pub fn spawn(exec: &mut Executor) -> (r: (usize, bool))
    requires
        old(exec).wf(),
    ensures
        final(exec).wf(),
        r.0 == old(exec).tasks(),
        final(exec).finished() == old(exec).finished().push(false),
        final(exec).order() == old(exec).order().push(r.0),
        (final(exec).signal_state(), r.1) == notify_spec(old(exec).signal_state()),
{
    let id = exec.queue.add_task();
    let wake = exec.signal.notify();
    (id, wake)
}

/// The start of a cycle of the run loop, once the top-level computation has
/// been polled: its value is returned if it has one, before any spawned task
/// is looked at and without waiting; else the drain begins.
pub fn block_on<T>(exec: &mut Executor, main: Option<T>) -> (r: Step<T>)
    requires
        old(exec).wf(),
    ensures
        final(exec).wf(),
        final(exec).finished() == old(exec).finished(),
        match main {
            Some(v) => {
                &&& r == Step::Return(v)
                &&& final(exec).order() == old(exec).order()
                &&& final(exec).signal_state() == old(exec).signal_state()
            },
            None => (final(exec).order(), final(exec).signal_state(), r) == drain_spec::<T>(
                old(exec).order(),
                old(exec).signal_state(),
            ),
        },
{
    match main {
        Some(v) => Step::Return(v),
        None => exec.drain(),
    }
}

/// The queue is first in, first out: while earlier tasks are queued, a task
/// queued at the back stays behind them, and the front task is retried.
pub proof fn lemma_fifo<T>(o: Seq<usize>, x: usize, s: State)
    requires
        o.len() > 0,
    ensures
        drain_spec::<T>(o.push(x), s) == (
            drain_spec::<T>(o, s).0.push(x),
            s,
            Step::<T>::Retry(o[0]),
        ),
{
    assert(o.push(x).drop_first() =~= o.drop_first().push(x));
}

/// Three tasks spawned in a row onto an empty queue are retried in the order
/// of spawning, all before the loop waits on the signal again.
pub proof fn lemma_spawn_order<T>(a: usize, b: usize, c: usize, s: State)
    ensures
        ({
            let q0 = Seq::<usize>::empty().push(a).push(b).push(c);
            let (q1, s1, r1) = drain_spec::<T>(q0, s);
            let (q2, s2, r2) = drain_spec::<T>(q1, s1);
            let (q3, s3, r3) = drain_spec::<T>(q2, s2);
            let (q4, s4, r4) = drain_spec::<T>(q3, s3);
            &&& r1 == Step::<T>::Retry(a)
            &&& r2 == Step::<T>::Retry(b)
            &&& r3 == Step::<T>::Retry(c)
            &&& r4 == Step::<T>::Park(wait_spec(s).1)
            &&& q4.len() == 0
        }),
{
    let q0 = Seq::<usize>::empty().push(a).push(b).push(c);
    assert(q0.drop_first() =~= seq![b, c]);
    assert(seq![b, c].drop_first() =~= seq![c]);
    assert(seq![c].drop_first() =~= Seq::<usize>::empty());
}

} // verus!
