use vstd::prelude::*;

verus! {

/// The state that a timer shares with the thread that fires it: whether it
/// has fired, and the resumption handle left by the last poll that found it
/// pending.
pub struct TimerFuture<H> {
    completed: bool,
    handle: Option<H>,
}

impl<H> TimerFuture<H> {
    /// Whether the timer has fired.
    pub closed spec fn completed(&self) -> bool {
        self.completed
    }

    /// The handle to invoke when the timer fires.
    pub closed spec fn handle(&self) -> Option<H> {
        self.handle
    }

    /// A timer that has not fired, with no handle stored.
    pub fn new() -> (r: TimerFuture<H>)
        ensures
            !r.completed(),
            r.handle() is None,
    {
        TimerFuture { completed: false, handle: None }
    }

    /// Polls the timer: ready once it has fired; else the handle is kept,
    /// in place of any earlier one, for the firing thread to invoke.
    pub fn poll(&mut self, handle: H) -> (ready: bool)
        ensures
            ready == old(self).completed(),
            final(self).completed() == old(self).completed(),
            final(self).handle() == if ready {
                old(self).handle()
            } else {
                Some(handle)
            },
    {
        if self.completed {
            true
        } else {
            self.handle = Some(handle);
            false
        }
    }

    /// Fires the timer; returns the stored handle, which the caller must
    /// invoke, and leaves none behind.
    pub fn fire(&mut self) -> (r: Option<H>)
        ensures
            final(self).completed(),
            r == old(self).handle(),
            final(self).handle() is None,
    {
        self.completed = true;
        self.handle.take()
    }
}

} // verus!
