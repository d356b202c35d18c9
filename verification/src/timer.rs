use vstd::prelude::*;

verus! {

/// Whether a timer stops at its duration or wraps around and counts again.
#[derive(Clone, Copy, PartialEq, Eq, Structural, Debug)]
pub enum TimerMode {
    Once,
    Repeating,
}

/// A countdown over elapsed/duration milliseconds with "just finished" edge
/// detection.
///
/// A one-shot timer saturates at its duration and ticking it further is a
/// no-op; a repeating timer wraps around. `just_finished_now` records whether
/// the most recent tick crossed the duration, so the edge fires exactly once
/// per completion.
#[derive(Clone, PartialEq, Eq, Structural, Debug)]
pub struct Timer {
    pub mode: TimerMode,
    pub duration_ms: u64,
    pub elapsed_ms: u64,
    pub just_finished_now: bool,
}

impl Timer {
    /// Elapsed time never escapes the duration.
    pub open spec fn wf(&self) -> bool {
        match self.mode {
            TimerMode::Once => self.elapsed_ms <= self.duration_ms,
            TimerMode::Repeating => if self.duration_ms == 0 {
                self.elapsed_ms == 0
            } else {
                self.elapsed_ms < self.duration_ms
            },
        }
    }

    /// A timer as it is at creation: nothing elapsed, no edge pending.
    pub open spec fn spec_fresh(duration_ms: u64, mode: TimerMode) -> Timer {
        Timer { mode, duration_ms, elapsed_ms: 0, just_finished_now: false }
    }

    /// A one-shot timer is finished once it reaches its duration; a repeating
    /// timer reports each completion only on the tick that crossed it.
    pub open spec fn spec_finished(&self) -> bool {
        match self.mode {
            TimerMode::Once => self.elapsed_ms >= self.duration_ms,
            TimerMode::Repeating => self.just_finished_now,
        }
    }

    /// The timer after advancing by `dt_ms` milliseconds.
    pub open spec fn spec_tick(self, dt_ms: u64) -> Timer {
        match self.mode {
            TimerMode::Once => if self.elapsed_ms >= self.duration_ms {
                Timer { just_finished_now: false, ..self }
            } else if dt_ms >= self.duration_ms - self.elapsed_ms {
                Timer { elapsed_ms: self.duration_ms, just_finished_now: true, ..self }
            } else {
                Timer {
                    elapsed_ms: (self.elapsed_ms + dt_ms) as u64,
                    just_finished_now: false,
                    ..self
                }
            },
            TimerMode::Repeating => if self.duration_ms == 0 {
                Timer { elapsed_ms: 0, just_finished_now: true, ..self }
            } else if dt_ms >= self.duration_ms - self.elapsed_ms {
                Timer {
                    elapsed_ms: ((dt_ms - (self.duration_ms - self.elapsed_ms))
                        % (self.duration_ms as int)) as u64,
                    just_finished_now: true,
                    ..self
                }
            } else {
                Timer {
                    elapsed_ms: (self.elapsed_ms + dt_ms) as u64,
                    just_finished_now: false,
                    ..self
                }
            },
        }
    }

    pub fn from_ms(duration_ms: u64, mode: TimerMode) -> (t: Timer)
        ensures
            t == Timer::spec_fresh(duration_ms, mode),
            t.wf(),
    {
        Timer { mode, duration_ms, elapsed_ms: 0, just_finished_now: false }
    }

    /// Advance the timer by `dt_ms` milliseconds. Ticking a finished one-shot
    /// timer is a no-op and its edge does not fire again.
    pub fn tick(&mut self, dt_ms: u64)
        requires
            old(self).wf(),
        ensures
            *final(self) == old(self).spec_tick(dt_ms),
            final(self).wf(),
    {
        match self.mode {
            TimerMode::Once => {
                if self.elapsed_ms >= self.duration_ms {
                    self.just_finished_now = false;
                } else if dt_ms >= self.duration_ms - self.elapsed_ms {
                    self.elapsed_ms = self.duration_ms;
                    self.just_finished_now = true;
                } else {
                    self.elapsed_ms = self.elapsed_ms + dt_ms;
                    self.just_finished_now = false;
                }
            }
            TimerMode::Repeating => {
                if self.duration_ms == 0 {
                    self.elapsed_ms = 0;
                    self.just_finished_now = true;
                } else if dt_ms >= self.duration_ms - self.elapsed_ms {
                    let overshoot: u64 = dt_ms - (self.duration_ms - self.elapsed_ms);
                    self.elapsed_ms = overshoot % self.duration_ms;
                    self.just_finished_now = true;
                } else {
                    self.elapsed_ms = self.elapsed_ms + dt_ms;
                    self.just_finished_now = false;
                }
            }
        }
    }

    pub fn finished(&self) -> (r: bool)
        ensures
            r == self.spec_finished(),
    {
        match self.mode {
            TimerMode::Once => self.elapsed_ms >= self.duration_ms,
            TimerMode::Repeating => self.just_finished_now,
        }
    }

    /// True exactly when the most recent tick completed the countdown.
    pub fn just_finished(&self) -> (r: bool)
        ensures
            r == self.just_finished_now,
    {
        self.just_finished_now
    }
}

} // verus!
