//! Timeouts and the waiting rules of the engine's mutexes and events.
use vstd::prelude::*;
use crate::types::ThreadId;

verus! {

/// The engine's timeout value that means "wait for as long as it takes".
pub const INFINITE_TIMEOUT: u16 = 0xFFFF;

/// How long a mutex or event wait may take.
#[derive(Clone, Copy, Debug, PartialEq, Eq, Structural)]
pub enum Timeout {
    Infinite,
    Millis(u16),
}

impl Timeout {
    /// The timeout that the engine's value stands for: `0xFFFF` waits without end, any
    /// other value is a number of milliseconds.
    pub fn from_raw(raw: u16) -> (r: Timeout)
        ensures
            raw == INFINITE_TIMEOUT ==> r == Timeout::Infinite,
            raw != INFINITE_TIMEOUT ==> r == Timeout::Millis(raw),
    {
        if raw == INFINITE_TIMEOUT {
            Timeout::Infinite
        } else {
            Timeout::Millis(raw)
        }
    }

    /// The engine's value of this timeout.
    pub fn as_raw(self) -> (r: u16)
        requires
            self != Timeout::Millis(INFINITE_TIMEOUT),
        ensures
            Timeout::from_raw_spec(r) == self,
    {
        match self {
            Timeout::Infinite => INFINITE_TIMEOUT,
            Timeout::Millis(ms) => ms,
        }
    }

    pub open spec fn from_raw_spec(raw: u16) -> Timeout {
        if raw == INFINITE_TIMEOUT {
            Timeout::Infinite
        } else {
            Timeout::Millis(raw)
        }
    }
}

/// What a waiter does next.
#[derive(Clone, Copy, Debug, PartialEq, Eq, Structural)]
pub enum WaitStep {
    /// The object was available and is now taken: the wait succeeds.
    Acquired,
    /// The time is up: the wait fails.
    TimedOut,
    /// Block until the object is signalled or released, or until time may be up.
    Block,
}

/// The step of a wait on an object with the given timeout, `elapsed_ms` milliseconds after
/// the wait began.
pub open spec fn next_wait_step(available: bool, timeout: Timeout, elapsed_ms: u64) -> WaitStep {
    if available {
        WaitStep::Acquired
    } else {
        match timeout {
            Timeout::Infinite => WaitStep::Block,
            Timeout::Millis(ms) => if elapsed_ms >= ms {
                WaitStep::TimedOut
            } else {
                WaitStep::Block
            },
        }
    }
}

/// Decides the next step of a wait: take the object if it is available, give up once
/// the timeout has passed, and block otherwise.
pub fn wait_step(available: bool, timeout: Timeout, elapsed_ms: u64) -> (r: WaitStep)
    ensures
        r == next_wait_step(available, timeout, elapsed_ms),
{
    if available {
        WaitStep::Acquired
    } else {
        match timeout {
            Timeout::Infinite => WaitStep::Block,
            Timeout::Millis(ms) => if elapsed_ms >= ms as u64 {
                WaitStep::TimedOut
            } else {
                WaitStep::Block
            },
        }
    }
}

/// A wait with the infinite timeout never gives up, however long it has waited: it ends
/// only by taking the object. A wait with timeout 0 that finds the object unavailable
/// fails at once.
pub proof fn lemma_wait_timeouts(available: bool, elapsed_ms: u64)
    ensures
        next_wait_step(available, Timeout::from_raw_spec(INFINITE_TIMEOUT), elapsed_ms)
            != WaitStep::TimedOut,
        !available ==> next_wait_step(available, Timeout::from_raw_spec(0), 0)
            == WaitStep::TimedOut,
        available ==> next_wait_step(available, Timeout::from_raw_spec(0), 0)
            == WaitStep::Acquired,
{
}

/// The counter of a semaphore-like event: signals add to it, successful waits take from it.
#[derive(Clone, Copy, Debug, PartialEq, Eq, Structural)]
pub struct EventCounter {
    count: u64,
}

impl View for EventCounter {
    type V = u64;

    closed spec fn view(&self) -> u64 {
        self.count
    }
}

impl EventCounter {
    pub fn new() -> (r: EventCounter)
        ensures
            r@ == 0,
    {
        EventCounter { count: 0 }
    }

    pub fn count(&self) -> (r: u64)
        ensures
            r == self@,
    {
        self.count
    }

    /// Adds one signal. The counter stays at its largest value once it gets there.
    pub fn signal(&mut self)
        ensures
            old(self)@ < u64::MAX ==> final(self)@ == old(self)@ + 1,
            old(self)@ == u64::MAX ==> final(self)@ == old(self)@,
    {
        if self.count < u64::MAX {
            self.count = self.count + 1;
        }
    }

    /// Takes one signal if there is one, and says whether there was.
    pub fn try_take(&mut self) -> (r: bool)
        ensures
            r == (old(self)@ > 0),
            r ==> final(self)@ == old(self)@ - 1,
            !r ==> final(self)@ == old(self)@,
    {
        if self.count > 0 {
            self.count = self.count - 1;
            true
        } else {
            false
        }
    }

    /// Drops every pending signal.
    pub fn reset(&mut self)
        ensures
            final(self)@ == 0,
    {
        self.count = 0;
    }
}

/// The state of a non-recursive mutex: the thread that holds it, if any.
#[derive(Clone, Copy, Debug, PartialEq, Eq, Structural)]
pub struct MutexState {
    owner: Option<ThreadId>,
}

impl MutexState {
    pub closed spec fn holder(&self) -> Option<ThreadId> {
        self.owner
    }

    pub fn new() -> (r: MutexState)
        ensures
            r.holder().is_none(),
    {
        MutexState { owner: None }
    }

    pub fn is_held(&self) -> (r: bool)
        ensures
            r == self.holder().is_some(),
    {
        self.owner.is_some()
    }

    /// Takes the mutex for `thread` if nobody holds it. A thread that already holds it does
    /// not get it again: the mutex is not recursive.
    pub fn try_acquire(&mut self, thread: ThreadId) -> (r: bool)
        ensures
            r == old(self).holder().is_none(),
            r ==> final(self).holder() == Some(thread),
            !r ==> final(self).holder() == old(self).holder(),
    {
        if self.owner.is_none() {
            self.owner = Some(thread);
            true
        } else {
            false
        }
    }

    /// Lets go of the mutex.
    pub fn release(&mut self)
        ensures
            final(self).holder().is_none(),
    {
        self.owner = None;
    }
}

} // verus!
