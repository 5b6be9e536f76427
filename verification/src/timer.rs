//! The stopwatch: a timer that is either stopped or running, and the time it
//! has counted so far.

use vstd::prelude::*;

verus! {

/// The time from `start` to `now`, or zero where `now` lies before `start`.
pub open spec fn span_between(start: nat, now: nat) -> nat {
    if now >= start {
        (now - start) as nat
    } else {
        0
    }
}

/// A stopwatch as a mathematical value. All times are in nanoseconds.
pub enum TimerView {
    /// Not counting. `accumulated` is the time banked by earlier runs.
    Stopped { accumulated: nat },
    /// Counting since `start`, on top of the time banked by earlier runs.
    Running { start: nat, accumulated: nat },
}

impl TimerView {
    /// A stopped timer that has counted nothing.
    pub open spec fn initial() -> TimerView {
        TimerView::Stopped { accumulated: 0 }
    }

    /// Whether the timer is counting.
    pub open spec fn is_running(self) -> bool {
        self is Running
    }

    /// The time banked by the runs that have ended.
    pub open spec fn accumulated(self) -> nat {
        match self {
            TimerView::Stopped { accumulated } => accumulated,
            TimerView::Running { accumulated, .. } => accumulated,
        }
    }

    /// When the current run began, if the timer is running.
    pub open spec fn start(self) -> Option<nat> {
        match self {
            TimerView::Stopped { .. } => None,
            TimerView::Running { start, .. } => Some(start),
        }
    }

    /// The time to display at `now`: what is banked, and the length of the
    /// current run if there is one.
    pub open spec fn elapsed(self, now: nat) -> nat {
        match self {
            TimerView::Stopped { accumulated } => accumulated,
            TimerView::Running { start, accumulated } => accumulated + span_between(start, now),
        }
    }

    /// Start/Pause at `now`: a stopped timer starts a run at `now`; a running
    /// timer banks the current run and stops.
    pub open spec fn toggle(self, now: nat) -> TimerView {
        match self {
            TimerView::Stopped { accumulated } => TimerView::Running { start: now, accumulated },
            TimerView::Running { .. } => TimerView::Stopped { accumulated: self.elapsed(now) },
        }
    }

    /// Reset at `now`: the banked time becomes zero. A running timer keeps
    /// running, with its run rebased to begin at `now`.
    pub open spec fn reset(self, now: nat) -> TimerView {
        match self {
            TimerView::Stopped { .. } => TimerView::Stopped { accumulated: 0 },
            TimerView::Running { .. } => TimerView::Running { start: now, accumulated: 0 },
        }
    }

    /// The timer after one toggle at each of `times`, in order.
    pub open spec fn toggle_all(self, times: Seq<nat>) -> TimerView
        decreases times.len(),
    {
        if times.len() == 0 {
            self
        } else {
            self.toggle_all(times.drop_last()).toggle(times.last())
        }
    }
}

/// The stopwatch. It is running exactly when it holds the start of a run.
#[derive(Clone, Copy, Debug)]
pub struct TimerState {
    running: bool,
    start: Option<u128>,
    accumulated: u128,
}

impl View for TimerState {
    type V = TimerView;

    closed spec fn view(&self) -> TimerView {
        match self.start {
            Some(start) => TimerView::Running {
                start: start as nat,
                accumulated: self.accumulated as nat,
            },
            None => TimerView::Stopped { accumulated: self.accumulated as nat },
        }
    }
}

impl TimerState {
    #[verifier::type_invariant]
    spec fn well_formed(self) -> bool {
        self.running == self.start.is_some()
    }

    /// A stopped timer that has counted nothing.
    pub fn new() -> (timer: TimerState)
        ensures
            timer@ == TimerView::initial(),
    {
        TimerState { running: false, start: None, accumulated: 0 }
    }

    /// Whether the timer is counting.
    pub fn is_running(&self) -> (running: bool)
        ensures
            running == self@.is_running(),
    {
        proof {
            use_type_invariant(self);
        }
        self.running
    }

    /// The time banked by the runs that have ended, in nanoseconds.
    pub fn accumulated(&self) -> (banked: u128)
        ensures
            banked == self@.accumulated(),
    {
        self.accumulated
    }

    /// When the current run began. There is a start exactly while the timer
    /// is running.
    pub fn start(&self) -> (start: Option<u128>)
        ensures
            match start {
                Some(at) => self@.start() == Some(at as nat),
                None => self@.start().is_none(),
            },
            start.is_some() == self@.is_running(),
    {
        self.start
    }

    /// Whether the time to display at `now` fits the counter.
    pub fn in_range(&self, now: u128) -> (fits: bool)
        ensures
            fits == (self@.elapsed(now as nat) <= u128::MAX),
    {
        match self.start {
            Some(start) => {
                let run: u128 = if now >= start { now - start } else { 0 };
                self.accumulated.checked_add(run).is_some()
            },
            None => true,
        }
    }

    /// The time to display at `now`: what is banked, and the length of the
    /// current run if there is one. Reads the timer and changes nothing. The
    /// time counted so far must fit the counter.
    pub fn elapsed(&self, now: u128) -> (total: u128)
        requires
            self@.elapsed(now as nat) <= u128::MAX,
        ensures
            total == self@.elapsed(now as nat),
    {
        match self.start {
            Some(start) => {
                let run: u128 = if now >= start { now - start } else { 0 };
                self.accumulated + run
            },
            None => self.accumulated,
        }
    }

    /// Start/Pause at `now`: a stopped timer starts a run at `now`; a running
    /// timer banks the run that ends at `now` and stops. The time counted so
    /// far must fit the counter.
    pub fn toggle(&mut self, now: u128)
        requires
            old(self)@.elapsed(now as nat) <= u128::MAX,
        ensures
            final(self)@ == old(self)@.toggle(now as nat),
            final(self)@.is_running() != old(self)@.is_running(),
            final(self)@.accumulated() >= old(self)@.accumulated(),
            final(self)@.elapsed(now as nat) == old(self)@.elapsed(now as nat),
    {
        match self.start {
            Some(_) => {
                let total: u128 = self.elapsed(now);
                *self = TimerState { running: false, start: None, accumulated: total };
            },
            None => {
                *self = TimerState { running: true, start: Some(now), accumulated: self.accumulated };
            },
        }
    }

    /// Reset at `now`: the display returns to zero. A running timer keeps
    /// running and counts up from zero again.
    pub fn reset(&mut self, now: u128)
        ensures
            final(self)@ == old(self)@.reset(now as nat),
            final(self)@.is_running() == old(self)@.is_running(),
            final(self)@.accumulated() == 0,
            final(self)@.elapsed(now as nat) == 0,
    {
        proof {
            use_type_invariant(&*self);
        }
        let start: Option<u128> = if self.running { Some(now) } else { None };
        *self = TimerState { running: self.running, start, accumulated: 0 };
    }
}

/// After any number of toggles the timer has changed between stopped and
/// running exactly when that number is odd. So a timer that was stopped is
/// running after `n` toggles exactly when `n` is odd.
pub proof fn toggle_parity(timer: TimerView, times: Seq<nat>)
    ensures
        timer.toggle_all(times).is_running() == (timer.is_running() != (times.len() % 2 == 1)),
        !timer.is_running() ==> timer.toggle_all(times).is_running() == (times.len() % 2 == 1),
    decreases times.len(),
{
    if times.len() > 0 {
        toggle_parity(timer, times.drop_last());
    }
}

/// Two queries with no command between them: the later one shows no less
/// than the earlier one, and the same where the clock has not moved.
pub proof fn query_non_decreasing(timer: TimerView, first: nat, second: nat)
    requires
        first <= second,
    ensures
        timer.elapsed(first) <= timer.elapsed(second),
        first == second ==> timer.elapsed(first) == timer.elapsed(second),
{
}

/// A stopped timer that is started at `at` and paused `wait` later has
/// banked exactly `wait` more; started and paused at one instant, it is
/// as it was.
pub proof fn toggle_round_trip(timer: TimerView, at: nat, wait: nat)
    requires
        !timer.is_running(),
    ensures
        timer.toggle(at).toggle(at + wait) == (TimerView::Stopped {
            accumulated: timer.accumulated() + wait,
        }),
        TimerView::initial().toggle(at).toggle(at + wait).accumulated() == wait,
        timer.toggle(at).toggle(at) == timer,
{
}

/// Reset of a stopped timer leaves it stopped, with nothing banked.
pub proof fn reset_while_stopped(timer: TimerView, now: nat)
    requires
        !timer.is_running(),
    ensures
        timer.reset(now) == TimerView::initial(),
        !timer.reset(now).is_running(),
        timer.reset(now).accumulated() == 0,
{
}

/// Reset of a running timer leaves it running: it shows zero at the instant
/// of the reset, and afterwards the time since the reset.
pub proof fn reset_while_running(timer: TimerView, now: nat, later: nat)
    requires
        timer.is_running(),
        now <= later,
    ensures
        timer.reset(now).is_running(),
        timer.reset(now).elapsed(now) == 0,
        timer.reset(now).elapsed(later) == later - now,
{
}

} // verus!
