//! The purchase scheduler: turns a trigger timestamp into a single trigger
//! signal, polled on a fixed cadence and ended early by cancellation.
//!
//! Like the retry engine it is a state machine: the caller sleeps for the
//! polling interval (racing the cancellation signal, which wins ties) and
//! reports either the current time or the cancellation.

use vstd::prelude::*;

verus! {

/// Where a scheduler stands.
#[derive(Clone, Copy, Debug, PartialEq, Eq, Structural)]
pub enum ScheduleState {
    /// The trigger time is still ahead.
    Waiting,
    /// The trigger time has been reached; execution has not begun.
    Triggered,
    /// The purchase run is under way.
    Executing,
    /// The task has ended: by its purchase run or by cancellation.
    Done,
}

/// What the caller reports to the scheduler.
#[derive(Clone, Copy, Debug, PartialEq, Eq, Structural)]
pub enum ScheduleEvent {
    /// A polling interval has elapsed; the clock now reads this many
    /// milliseconds.
    Tick(i64),
    /// The cancellation signal was observed.
    Cancel,
}

/// What the scheduler tells the caller.
#[derive(Clone, Copy, Debug, PartialEq, Eq, Structural)]
pub enum ScheduleSignal {
    /// Keep waiting; this many milliseconds remain.
    Countdown(u64),
    /// The trigger time has been reached: start the purchase run now.
    Trigger,
    /// The task was cancelled.
    Cancelled,
    /// Nothing to do for this event.
    Idle,
}

/// The scheduler of one task.
#[derive(Clone, Copy, Debug, PartialEq, Eq, Structural)]
pub struct Scheduler {
    /// The effective trigger time, in milliseconds since the epoch.
    pub trigger_at: i64,
    pub state: ScheduleState,
    /// Polling cycles taken while waiting.
    pub polls: u64,
    /// Whether the task ended by cancellation.
    pub cancelled: bool,
}

/// The milliseconds left until `trigger_at` at time `now` (not positive
/// once it is reached).
pub open spec fn remaining(trigger_at: i64, now: i64) -> int {
    trigger_at - now
}

impl Scheduler {
    /// The scheduler after `ev`.
    pub open spec fn next(self, ev: ScheduleEvent) -> Scheduler {
        match ev {
            ScheduleEvent::Cancel => if self.state == ScheduleState::Done {
                self
            } else {
                Scheduler { state: ScheduleState::Done, cancelled: true, ..self }
            },
            ScheduleEvent::Tick(now) => if self.state == ScheduleState::Waiting {
                let polls = if self.polls < u64::MAX {
                    (self.polls + 1) as u64
                } else {
                    self.polls
                };
                if remaining(self.trigger_at, now) <= 0 {
                    Scheduler { state: ScheduleState::Triggered, polls, ..self }
                } else {
                    Scheduler { polls, ..self }
                }
            } else {
                self
            },
        }
    }

    /// The signal that goes with `ev` in the state before it.
    pub open spec fn signal(self, ev: ScheduleEvent) -> ScheduleSignal {
        match ev {
            ScheduleEvent::Cancel => if self.state == ScheduleState::Done {
                ScheduleSignal::Idle
            } else {
                ScheduleSignal::Cancelled
            },
            ScheduleEvent::Tick(now) => if self.state == ScheduleState::Waiting {
                if remaining(self.trigger_at, now) <= 0 {
                    ScheduleSignal::Trigger
                } else {
                    ScheduleSignal::Countdown(remaining(self.trigger_at, now) as u64)
                }
            } else {
                ScheduleSignal::Idle
            },
        }
    }

    /// Starts waiting for `trigger_at` at time `now`. A trigger time that is
    /// already reached fires at once, without any polling cycle.
    pub fn start(trigger_at: i64, now: i64) -> (r: (Scheduler, ScheduleSignal))
        ensures
            r.0.trigger_at == trigger_at,
            r.0.polls == 0,
            !r.0.cancelled,
            remaining(trigger_at, now) <= 0 ==> r.0.state == ScheduleState::Triggered && r.1
                == ScheduleSignal::Trigger,
            remaining(trigger_at, now) > 0 ==> r.0.state == ScheduleState::Waiting && r.1
                == ScheduleSignal::Countdown(remaining(trigger_at, now) as u64),
    {
        if trigger_at <= now {
            (
                Scheduler { trigger_at, state: ScheduleState::Triggered, polls: 0, cancelled: false },
                ScheduleSignal::Trigger,
            )
        } else {
            let left = (trigger_at as i128 - now as i128) as u64;
            (
                Scheduler { trigger_at, state: ScheduleState::Waiting, polls: 0, cancelled: false },
                ScheduleSignal::Countdown(left),
            )
        }
    }

    /// Takes in a tick or a cancellation. Cancellation ends every state but
    /// `Done`; a tick matters only while waiting, and fires the trigger once
    /// the remaining time is zero or less.
    pub fn on_event(&mut self, ev: ScheduleEvent) -> (s: ScheduleSignal)
        ensures
            *final(self) == old(self).next(ev),
            s == old(self).signal(ev),
    {
        match ev {
            ScheduleEvent::Cancel => {
                if self.state == ScheduleState::Done {
                    ScheduleSignal::Idle
                } else {
                    self.state = ScheduleState::Done;
                    self.cancelled = true;
                    ScheduleSignal::Cancelled
                }
            },
            ScheduleEvent::Tick(now) => {
                if self.state == ScheduleState::Waiting {
                    if self.polls < u64::MAX {
                        self.polls = self.polls + 1;
                    }
                    if self.trigger_at <= now {
                        self.state = ScheduleState::Triggered;
                        ScheduleSignal::Trigger
                    } else {
                        ScheduleSignal::Countdown((self.trigger_at as i128 - now as i128) as u64)
                    }
                } else {
                    ScheduleSignal::Idle
                }
            },
        }
    }

    /// Moves a triggered scheduler on to execution; returns whether it did.
    pub fn begin_execution(&mut self) -> (r: bool)
        ensures
            r == (old(self).state == ScheduleState::Triggered),
            r ==> *final(self) == (Scheduler { state: ScheduleState::Executing, ..*old(self) }),
            !r ==> *final(self) == *old(self),
    {
        if self.state == ScheduleState::Triggered {
            self.state = ScheduleState::Executing;
            true
        } else {
            false
        }
    }

    /// Ends an executing scheduler once the purchase run has finished.
    pub fn finish(&mut self)
        ensures
            old(self).state == ScheduleState::Executing ==> *final(self) == (Scheduler {
                state: ScheduleState::Done,
                ..*old(self)
            }),
            old(self).state != ScheduleState::Executing ==> *final(self) == *old(self),
    {
        if self.state == ScheduleState::Executing {
            self.state = ScheduleState::Done;
        }
    }
}

/// The scheduler after a sequence of events, taken in order.
pub open spec fn run_schedule(s: Scheduler, evs: Seq<ScheduleEvent>) -> Scheduler
    decreases evs.len(),
{
    if evs.len() == 0 {
        s
    } else {
        run_schedule(s, evs.drop_last()).next(evs.last())
    }
}

/// The clock readings of a sequence of ticks.
pub open spec fn ticks(nows: Seq<i64>) -> Seq<ScheduleEvent> {
    nows.map_values(|n: i64| ScheduleEvent::Tick(n))
}

/// Never early, never late: a waiting scheduler fed only ticks is triggered
/// exactly when some tick read a time at or after the trigger time, and is
/// still waiting exactly when every tick came before it.
pub proof fn lemma_trigger_iff_reached(s: Scheduler, nows: Seq<i64>)
    requires
        s.state == ScheduleState::Waiting,
    ensures
        run_schedule(s, ticks(nows)).state == ScheduleState::Triggered <==> exists|i: int|
            0 <= i < nows.len() && remaining(s.trigger_at, #[trigger] nows[i]) <= 0,
        run_schedule(s, ticks(nows)).state == ScheduleState::Waiting <==> forall|i: int|
            0 <= i < nows.len() ==> remaining(s.trigger_at, #[trigger] nows[i]) > 0,
        run_schedule(s, ticks(nows)).trigger_at == s.trigger_at,
    decreases nows.len(),
{
    if nows.len() > 0 {
        let prev = nows.drop_last();
        assert(ticks(nows).drop_last() =~= ticks(prev));
        lemma_trigger_iff_reached(s, prev);
        let before = run_schedule(s, ticks(prev));
        if before.state == ScheduleState::Triggered {
            let i = choose|i: int| 0 <= i < prev.len() && remaining(s.trigger_at, #[trigger] prev[i]) <= 0;
            assert(nows[i] == prev[i]);
        } else {
            if remaining(s.trigger_at, nows.last()) <= 0 {
                assert(remaining(s.trigger_at, nows[nows.len() - 1]) <= 0);
            } else {
                assert forall|i: int| 0 <= i < nows.len() implies remaining(s.trigger_at, #[trigger] nows[i]) > 0 by {
                    if i < nows.len() - 1 {
                        assert(nows[i] == prev[i]);
                    }
                }
            }
            if exists|i: int| 0 <= i < nows.len() && remaining(s.trigger_at, #[trigger] nows[i]) <= 0 {
                let i = choose|i: int| 0 <= i < nows.len() && remaining(s.trigger_at, #[trigger] nows[i]) <= 0;
                if i < nows.len() - 1 {
                    assert(prev[i] == nows[i]);
                }
            }
        }
    }
}

/// Cancellation wins: whatever state a task that has not ended is in, a
/// cancellation ends it as cancelled, and no later event triggers it.
pub proof fn lemma_cancel_overrides(s: Scheduler, more: Seq<ScheduleEvent>)
    requires
        s.state != ScheduleState::Done,
    ensures
        s.signal(ScheduleEvent::Cancel) == ScheduleSignal::Cancelled,
        run_schedule(s.next(ScheduleEvent::Cancel), more).state == ScheduleState::Done,
        run_schedule(s.next(ScheduleEvent::Cancel), more).cancelled,
    decreases more.len(),
{
    if more.len() > 0 {
        lemma_cancel_overrides(s, more.drop_last());
    }
}

/// Splits a span of milliseconds into whole hours, whole minutes and the
/// milliseconds left within the minute (seconds with three decimals).
pub fn ms_to_hms(ms: u64) -> (r: (u64, u64, u64))
    ensures
        r.0 == ms / 3_600_000,
        r.1 == (ms % 3_600_000) / 60_000,
        r.2 == ms % 60_000,
        r.1 < 60,
        r.2 < 60_000,
        r.0 * 3_600_000 + r.1 * 60_000 + r.2 == ms,
{
    let hours = ms / 3_600_000;
    let rest = ms % 3_600_000;
    let minutes = rest / 60_000;
    let millis = ms % 60_000;
    assert(millis == rest % 60_000) by (nonlinear_arith)
        requires
            rest == ms % 3_600_000,
            millis == ms % 60_000,
    {
        vstd::arithmetic::div_mod::lemma_mod_mod(ms as int, 60_000, 60);
    }
    assert(hours * 3_600_000 + minutes * 60_000 + millis == ms) by (nonlinear_arith)
        requires
            hours == ms / 3_600_000,
            rest == ms % 3_600_000,
            minutes == rest / 60_000,
            millis == rest % 60_000,
    {}
    (hours, minutes, millis)
}

} // verus!
