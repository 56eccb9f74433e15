use vstd::prelude::*;

verus! {

/// The three states of a wake signal.
#[derive(Clone, Copy, Debug, PartialEq, Eq, Structural)]
pub enum State {
    /// No thread is parked and no wake is pending.
    Empty,
    /// One thread is parked until the next notification.
    Waiting,
    /// A wake arrived while nobody was parked; the next wait consumes it.
    Notified,
}

/// What a call to `wait` asks of the calling thread.
#[derive(Clone, Copy, Debug, PartialEq, Eq, Structural)]
pub enum WaitOutcome {
    /// A pending notification was consumed: return at once.
    Consumed,
    /// The thread must park until `is_waiting` turns false.
    Parked,
    /// Another thread is already parked on this signal: a fatal misuse.
    MultipleWait,
}

/// The state after `wait` and what the waiting thread must do.
pub open spec fn wait_spec(s: State) -> (State, WaitOutcome) {
    match s {
        State::Empty => (State::Waiting, WaitOutcome::Parked),
        State::Waiting => (State::Waiting, WaitOutcome::MultipleWait),
        State::Notified => (State::Empty, WaitOutcome::Consumed),
    }
}

/// The state after `notify`, and whether a parked thread must be woken.
pub open spec fn notify_spec(s: State) -> (State, bool) {
    match s {
        State::Empty => (State::Notified, false),
        State::Waiting => (State::Empty, true),
        State::Notified => (State::Notified, false),
    }
}

/// A single-slot, coalescing park/notify event.
///
/// The value holds only the state; the thread that owns it guards it with a
/// lock and parks on a condition variable while the state is `Waiting`.
pub struct Signal {
    state: State,
}

impl View for Signal {
    type V = State;

    closed spec fn view(&self) -> State {
        self.state
    }
}

impl Signal {
    /// A signal with no pending wake and nobody parked.
    pub fn new() -> (r: Signal)
        ensures
            r@ == State::Empty,
    {
        Signal { state: State::Empty }
    }

    /// The current state.
    pub fn state(&self) -> (r: State)
        ensures
            r == self@,
    {
        self.state
    }

    /// Whether a parked thread must go on waiting.
    pub fn is_waiting(&self) -> (r: bool)
        ensures
            r == (self@ == State::Waiting),
    {
        match self.state {
            State::Waiting => true,
            _ => false,
        }
    }

    /// Starts a wait: consumes a pending wake, or parks the caller.
    pub fn wait(&mut self) -> (r: WaitOutcome)
        ensures
            (final(self)@, r) == wait_spec(old(self)@),
    {
        match self.state {
            State::Empty => {
                self.state = State::Waiting;
                WaitOutcome::Parked
            },
            State::Waiting => WaitOutcome::MultipleWait,
            State::Notified => {
                self.state = State::Empty;
                WaitOutcome::Consumed
            },
        }
    }

    /// Records a wake; returns whether a parked thread must be woken.
    pub fn notify(&mut self) -> (r: bool)
        ensures
            (final(self)@, r) == notify_spec(old(self)@),
    {
        match self.state {
            State::Empty => {
                self.state = State::Notified;
                false
            },
            State::Waiting => {
                self.state = State::Empty;
                true
            },
            State::Notified => false,
        }
    }
}

/// A wait on a signal that already has a parked thread is refused as a
/// misuse and leaves the signal as it was.
pub proof fn lemma_single_park(s: State)
    requires
        s == State::Waiting,
    ensures
        wait_spec(s) == (State::Waiting, WaitOutcome::MultipleWait),
{
}

/// A notification that comes before the wait is not lost: the wait consumes
/// it without parking and leaves the signal empty.
pub proof fn lemma_notify_before_wait()
    ensures
        wait_spec(notify_spec(State::Empty).0) == (State::Empty, WaitOutcome::Consumed),
{
}

/// Notifications coalesce: while nobody is parked a second notification
/// changes nothing, so two notifications followed by one wait leave no wake
/// pending, and the next wait parks.
pub proof fn lemma_notifications_coalesce(s: State)
    requires
        s != State::Waiting,
    ensures
        notify_spec(notify_spec(s).0) == notify_spec(s),
        wait_spec(notify_spec(notify_spec(s).0).0) == (State::Empty, WaitOutcome::Consumed),
        wait_spec(wait_spec(notify_spec(notify_spec(s).0).0).0) == (
            State::Waiting,
            WaitOutcome::Parked,
        ),
{
}

/// A notification always ends a park: the parked thread is woken and the
/// signal is left empty.
pub proof fn lemma_notify_releases_waiter()
    ensures
        notify_spec(wait_spec(State::Empty).0) == (State::Empty, true),
{
}

} // verus!
