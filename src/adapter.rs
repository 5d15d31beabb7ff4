use vstd::prelude::*;

use crate::error::RabcError;

verus! {

/// What a wake slot holds, as a value.
pub struct SlotState<W> {
    /// The wake handle of the task that waits, if one waits.
    pub waker: Option<W>,
    /// A watcher thread has been started and has not stopped.
    pub watcher_running: bool,
    /// The consumer is gone: nobody will wait any more.
    pub closed: bool,
}

/// What the watcher thread does next.
#[derive(Clone, Copy, Debug, PartialEq, Eq, Structural)]
pub enum WatcherPlan {
    /// Nothing to wake: sleep a little, then look again.
    Sleep,
    /// A task waits: block on readiness, with a short timeout.
    WaitReadiness,
    /// The consumer is gone: stop.
    Exit,
}

/// The slot after a task installs its wake handle `w`.
pub open spec fn installed<W>(s: SlotState<W>, w: W) -> SlotState<W> {
    SlotState { waker: Some(w), watcher_running: true, closed: s.closed }
}

/// Whether installing a handle in `s` must start a watcher thread.
pub open spec fn must_spawn<W>(s: SlotState<W>) -> bool {
    !s.watcher_running
}

/// The slot after readiness came and its handle, if any, was taken.
pub open spec fn taken<W>(s: SlotState<W>) -> SlotState<W> {
    SlotState { waker: None, ..s }
}

/// The watcher's next step in `s`.
pub open spec fn watcher_plan_of<W>(s: SlotState<W>) -> WatcherPlan {
    if s.closed {
        WatcherPlan::Exit
    } else if s.waker is None {
        WatcherPlan::Sleep
    } else {
        WatcherPlan::WaitReadiness
    }
}

/// The hand-off between a task that waits for readiness and the watcher
/// thread that wakes it: one optional wake handle, and whether a watcher
/// runs. It is meant to sit behind one lock; each method is one step taken
/// under it.
#[derive(Debug)]
pub struct WakeSlot<W> {
    waker: Option<W>,
    watcher_running: bool,
    closed: bool,
}

impl<W> View for WakeSlot<W> {
    type V = SlotState<W>;

    closed spec fn view(&self) -> SlotState<W> {
        SlotState { waker: self.waker, watcher_running: self.watcher_running, closed: self.closed }
    }
}

impl<W> WakeSlot<W> {
    /// An empty slot, with no watcher.
    pub fn new() -> (r: Self)
        ensures
            r@ == (SlotState::<W> { waker: None, watcher_running: false, closed: false }),
    {
        WakeSlot { waker: None, watcher_running: false, closed: false }
    }

    /// A task is about to suspend: its handle replaces any earlier one.
    /// Returns whether the caller must start the one watcher thread.
    pub fn install(&mut self, w: W) -> (spawn: bool)
        ensures
            final(self)@ == installed(old(self)@, w),
            spawn == must_spawn(old(self)@),
    {
        let spawn = !self.watcher_running;
        self.waker = Some(w);
        self.watcher_running = true;
        spawn
    }

    /// What the watcher does next.
    pub fn watcher_plan(&self) -> (r: WatcherPlan)
        ensures
            r == watcher_plan_of(self@),
    {
        if self.closed {
            WatcherPlan::Exit
        } else if self.waker.is_none() {
            WatcherPlan::Sleep
        } else {
            WatcherPlan::WaitReadiness
        }
    }

    /// Readiness came: takes the handle to wake, leaving the slot empty.
    /// `None` means an earlier round already woke the task.
    pub fn take_for_wake(&mut self) -> (r: Option<W>)
        ensures
            r == old(self)@.waker,
            final(self)@ == taken(old(self)@),
    {
        self.waker.take()
    }

    /// The consumer is gone: nobody is left to wake, and the watcher stops
    /// at its next look.
    pub fn close(&mut self)
        ensures
            final(self)@ == (SlotState::<W> { waker: None, watcher_running: old(self)@.watcher_running, closed: true }),
    {
        self.waker = None;
        self.closed = true;
    }

    /// The watcher has stopped; the next task to suspend starts a new one.
    pub fn watcher_stopped(&mut self)
        ensures
            final(self)@ == (SlotState::<W> { watcher_running: false, ..old(self)@ }),
    {
        self.watcher_running = false;
    }
}

/// What one processed event gives the consumer: a received text or an
/// error is handed out at once; a timer tick gives nothing, and the drain
/// goes on.
pub fn drain_yield(outcome: Result<Option<String>, RabcError>) -> (r: Option<Result<String, RabcError>>)
    ensures
        match outcome {
            Ok(Some(t)) => r == Some(Ok::<String, RabcError>(t)),
            Ok(None) => r is None,
            Err(e) => r == Some(Err::<String, RabcError>(e)),
        },
{
    match outcome {
        Ok(Some(t)) => Some(Ok(t)),
        Ok(None) => None,
        Err(e) => Some(Err(e)),
    }
}

/// A task that suspended on an open slot is not missed: the watcher goes
/// on to wait for readiness, and the first readiness hands it that task's
/// handle, exactly once.
pub proof fn lemma_no_missed_wake<W>(s: SlotState<W>, w: W)
    requires
        !s.closed,
    ensures
        watcher_plan_of(installed(s, w)) == WatcherPlan::WaitReadiness,
        installed(s, w).waker == Some(w),
        taken(installed(s, w)).waker is None,
        watcher_plan_of(taken(installed(s, w))) == WatcherPlan::Sleep,
{
}

/// At most one watcher runs: once one is started, installing more handles
/// starts no other until it stops.
pub proof fn lemma_single_watcher<W>(s: SlotState<W>, w1: W, w2: W)
    ensures
        installed(s, w1).watcher_running,
        !must_spawn(installed(s, w1)),
        !must_spawn(taken(installed(s, w1))),
        installed(installed(s, w1), w2).waker == Some(w2),
{
}

/// Once the consumer is gone the watcher stops at its next look, whatever
/// it was doing, and a late readiness finds nothing to wake.
pub proof fn lemma_close_stops_watcher<W>(s: SlotState<W>)
    ensures
        ({
            let c = SlotState::<W> { waker: None, watcher_running: s.watcher_running, closed: true };
            &&& watcher_plan_of(c) == WatcherPlan::Exit
            &&& taken(c).waker is None
            &&& watcher_plan_of(taken(c)) == WatcherPlan::Exit
        }),
{
}

} // verus!
