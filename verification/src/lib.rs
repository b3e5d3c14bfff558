//! Nagi core: the rules layer of a "quiet time" timer.
//!
//! The timer decides, purely from the values it is handed, which phase a
//! session is in, when it is reset and when it completes. Rendering, sound,
//! haptics and foreground detection live outside this crate.
//!
//! Time is counted in whole milliseconds and the disturbance gauge in
//! millionths of its range, so that every rule below is exact integer
//! arithmetic.
use vstd::prelude::*;

pub mod laws;
pub mod palette;

verus! {

/// Full scale of the disturbance gauge (the gauge counts millionths of its
/// range). When the gauge reaches this value the session is reset.
pub const RESET_THRESHOLD: u64 = 1_000_000;

/// Rise of the gauge per millisecond of touching: 0.5 of the range per
/// second, so about two seconds of continuous touching reach the threshold.
pub const RISE_PER_MS: u64 = 500;

/// Fall of the gauge per millisecond without touching: 1.0 of the range per
/// second, so letting go brings the gauge back to zero within a second.
pub const DECAY_PER_MS: u64 = 1_000;

/// Phase of a session. Calm versus disturbed is carried by the continuous
/// gauge, not by the phase; a reset is a transition, reported through
/// `RenderState::ended`, not a phase.
#[derive(Debug, Clone, Copy, PartialEq, Eq, Structural)]
pub enum Phase {
    /// Not started yet (the length is being chosen).
    Idle,
    /// In progress, calm or disturbed.
    Running,
    /// The chosen length was reached.
    Completed,
}

/// Why an attempt was interrupted.
#[derive(Debug, Clone, Copy, PartialEq, Eq, Structural)]
pub enum AbortReason {
    /// Touching the screen drove the gauge to the threshold.
    Disturbance,
    /// The user switched to another app.
    Left,
}

/// How one attempt (from its start to its completion or interruption) ended.
#[derive(Debug, Clone, Copy, PartialEq, Eq, Structural)]
pub enum SessionEnd {
    /// The chosen length was reached.
    Completed,
    /// The attempt was interrupted.
    Aborted(AbortReason),
}

/// Record of one attempt. The start time comes from the wall clock of the
/// caller; this crate only defines the shape of the record.
#[derive(Debug, Clone, Copy, PartialEq, Eq, Structural)]
pub struct SessionRecord {
    /// Start of the attempt (Unix epoch seconds), supplied by the caller.
    pub started_at_epoch_secs: i64,
    /// Chosen length in milliseconds.
    pub duration_set_ms: u64,
    /// How the attempt ended.
    pub outcome: SessionEnd,
}

/// What the presentation layer draws each frame.
#[derive(Debug, Clone, Copy, PartialEq, Eq)]
pub struct RenderState {
    pub phase: Phase,
    /// Remaining time in milliseconds; zero unless running.
    pub remaining_ms: u64,
    /// Disturbance gauge in millionths, `0..=RESET_THRESHOLD`.
    pub disturbance: u64,
    /// Set on the frame where an attempt ended, `None` otherwise.
    pub ended: Option<SessionEnd>,
}

/// Mathematical state of a [`NagiTimer`].
pub struct TimerState {
    pub duration_ms: u64,
    pub elapsed_ms: u64,
    pub disturbance: u64,
    pub phase: Phase,
    pub paused: bool,
}

impl TimerState {
    /// The states a timer can be in.
    pub open spec fn wf(self) -> bool {
        &&& self.elapsed_ms <= self.duration_ms
        &&& self.disturbance < RESET_THRESHOLD
        &&& self.phase == Phase::Idle ==> self.duration_ms == 0 && self.elapsed_ms == 0
            && self.disturbance == 0
        &&& self.phase == Phase::Completed ==> self.elapsed_ms == self.duration_ms
    }
}

/// What a state shows when no attempt ends on this frame.
pub open spec fn snapshot_of(s: TimerState) -> RenderState {
    RenderState {
        phase: s.phase,
        remaining_ms: if s.phase == Phase::Running {
            (s.duration_ms - s.elapsed_ms) as u64
        } else {
            0
        },
        disturbance: s.disturbance,
        ended: None,
    }
}

/// What a state shows on the frame where an attempt ended with `end`.
pub open spec fn ended_snapshot_of(s: TimerState, end: SessionEnd) -> RenderState {
    RenderState { ended: Some(end), ..snapshot_of(s) }
}

/// The same length, begun again: no elapsed time, a calm gauge, running.
pub open spec fn restarted(s: TimerState) -> TimerState {
    TimerState { elapsed_ms: 0, disturbance: 0, phase: Phase::Running, ..s }
}

/// The state after `start(duration_ms)`; a negative length counts as zero.
pub open spec fn started(duration_ms: i64) -> TimerState {
    TimerState {
        duration_ms: if duration_ms < 0 { 0 } else { duration_ms as u64 },
        elapsed_ms: 0,
        disturbance: 0,
        phase: Phase::Running,
        paused: false,
    }
}

/// The gauge after `dt_ms` milliseconds, rising while touching and falling
/// otherwise, kept within `0..=RESET_THRESHOLD`.
pub open spec fn gauge_after(disturbance: u64, dt_ms: u64, touching: bool) -> int {
    if touching {
        let g: int = disturbance + RISE_PER_MS * dt_ms;
        if g > RESET_THRESHOLD { RESET_THRESHOLD as int } else { g }
    } else {
        let g: int = disturbance - DECAY_PER_MS * dt_ms;
        if g < 0 { 0 } else { g }
    }
}

/// One frame of `dt_ms` milliseconds: the next state and what it shows.
pub open spec fn tick_step(s: TimerState, dt_ms: u64, touching: bool) -> (TimerState, RenderState) {
    if s.phase != Phase::Running || s.paused {
        (s, snapshot_of(s))
    } else {
        let g: int = gauge_after(s.disturbance, dt_ms, touching);
        if g >= RESET_THRESHOLD {
            let r = restarted(s);
            (r, ended_snapshot_of(r, SessionEnd::Aborted(AbortReason::Disturbance)))
        } else if s.elapsed_ms + dt_ms >= s.duration_ms {
            let c = TimerState {
                elapsed_ms: s.duration_ms,
                disturbance: g as u64,
                phase: Phase::Completed,
                ..s
            };
            (c, ended_snapshot_of(c, SessionEnd::Completed))
        } else {
            let n = TimerState {
                elapsed_ms: (s.elapsed_ms + dt_ms) as u64,
                disturbance: g as u64,
                ..s
            };
            (n, snapshot_of(n))
        }
    }
}

/// Switching to another app: a running attempt is interrupted and begun
/// again; otherwise nothing happens.
pub open spec fn leave_step(s: TimerState) -> (TimerState, RenderState) {
    if s.phase == Phase::Running {
        let r = restarted(s);
        (r, ended_snapshot_of(r, SessionEnd::Aborted(AbortReason::Left)))
    } else {
        (s, snapshot_of(s))
    }
}

/// The state machine of a session.
pub struct NagiTimer {
    duration_ms: u64,
    elapsed_ms: u64,
    disturbance: u64,
    phase: Phase,
    /// Whether an OS interruption (a call, an emergency alert) is in
    /// progress; time does not advance meanwhile.
    paused: bool,
}

/// The gauge after one frame, computed without overflow.
fn next_gauge(disturbance: u64, dt_ms: u64, touching: bool) -> (g: u64)
    requires
        disturbance <= RESET_THRESHOLD,
    ensures
        g == gauge_after(disturbance, dt_ms, touching),
{
    assert((RISE_PER_MS as u128) * (dt_ms as u128) <= 1000 * 0x1_0000_0000_0000_0000) by (nonlinear_arith)
        requires dt_ms <= u64::MAX;
    assert((DECAY_PER_MS as u128) * (dt_ms as u128) <= 1000 * 0x1_0000_0000_0000_0000) by (nonlinear_arith)
        requires dt_ms <= u64::MAX;
    if touching {
        let raised: u128 = disturbance as u128 + (RISE_PER_MS as u128) * (dt_ms as u128);
        if raised > RESET_THRESHOLD as u128 {
            RESET_THRESHOLD
        } else {
            raised as u64
        }
    } else {
        let fall: u128 = (DECAY_PER_MS as u128) * (dt_ms as u128);
        if fall >= disturbance as u128 {
            0
        } else {
            disturbance - (fall as u64)
        }
    }
}

impl Default for NagiTimer {
    fn default() -> (t: Self)
        ensures
            t@ == NagiTimer::idle_state(),
            t@.wf(),
    {
        NagiTimer::new()
    }
}

impl View for NagiTimer {
    type V = TimerState;

    closed spec fn view(&self) -> TimerState {
        TimerState {
            duration_ms: self.duration_ms,
            elapsed_ms: self.elapsed_ms,
            disturbance: self.disturbance,
            phase: self.phase,
            paused: self.paused,
        }
    }
}

impl NagiTimer {
    #[verifier::type_invariant]
    spec fn inv(self) -> bool {
        self@.wf()
    }

    /// A timer that has not started.
    pub fn new() -> (t: Self)
        ensures
            t@ == NagiTimer::idle_state(),
            t@.wf(),
    {
        NagiTimer { duration_ms: 0, elapsed_ms: 0, disturbance: 0, phase: Phase::Idle, paused: false }
    }

    /// The idle state a timer is created in.
    pub open spec fn idle_state() -> TimerState {
        TimerState { duration_ms: 0, elapsed_ms: 0, disturbance: 0, phase: Phase::Idle, paused: false }
    }

    /// Starts a session of `duration_ms` milliseconds (a negative length
    /// counts as zero): running, nothing elapsed, calm, not paused.
    pub fn start(&mut self, duration_ms: i64)
        ensures
            final(self)@ == started(duration_ms),
            final(self)@.wf(),
    {
        let duration: u64 = if duration_ms < 0 { 0 } else { duration_ms as u64 };
        *self = NagiTimer {
            duration_ms: duration,
            elapsed_ms: 0,
            disturbance: 0,
            phase: Phase::Running,
            paused: false,
        };
    }

    /// Advances time by `dt_ms` milliseconds; `touching` tells whether the
    /// screen is touched during this frame.
    ///
    /// While touching the gauge rises, otherwise it falls. When it reaches
    /// the threshold the attempt is interrupted without advancing time and
    /// the same length begins again (`Aborted(Disturbance)`). Otherwise time
    /// advances, and reaching the chosen length completes the session.
    /// Nothing changes unless the timer is running and not paused.
    pub fn tick(&mut self, dt_ms: u64, touching: bool) -> (r: RenderState)
        ensures
            (final(self)@, r) == tick_step(old(self)@, dt_ms, touching),
            final(self)@.wf(),
    {
        proof {
            use_type_invariant(&*self);
        }
        if self.phase != Phase::Running || self.paused {
            return self.snapshot();
        }
        let gauge: u64 = next_gauge(self.disturbance, dt_ms, touching);
        if gauge >= RESET_THRESHOLD {
            self.reset_to_start();
            return self.snapshot_ended(SessionEnd::Aborted(AbortReason::Disturbance));
        }
        if dt_ms >= self.duration_ms - self.elapsed_ms {
            *self = NagiTimer {
                duration_ms: self.duration_ms,
                elapsed_ms: self.duration_ms,
                disturbance: gauge,
                phase: Phase::Completed,
                paused: self.paused,
            };
            return self.snapshot_ended(SessionEnd::Completed);
        }
        *self = NagiTimer {
            duration_ms: self.duration_ms,
            elapsed_ms: self.elapsed_ms + dt_ms,
            disturbance: gauge,
            phase: Phase::Running,
            paused: self.paused,
        };
        self.snapshot()
    }

    /// The user switched to another app: a running attempt is interrupted at
    /// once (`Aborted(Left)`) and the same length begins again.
    pub fn leave(&mut self) -> (r: RenderState)
        ensures
            (final(self)@, r) == leave_step(old(self)@),
            final(self)@.wf(),
    {
        proof {
            use_type_invariant(&*self);
        }
        if self.phase == Phase::Running {
            self.reset_to_start();
            return self.snapshot_ended(SessionEnd::Aborted(AbortReason::Left));
        }
        self.snapshot()
    }

    /// Begin (`true`) or end (`false`) an OS interruption; time does not
    /// advance while one is in progress.
    pub fn set_paused(&mut self, paused: bool)
        ensures
            final(self)@ == (TimerState { paused, ..old(self)@ }),
            final(self)@.wf(),
    {
        proof {
            use_type_invariant(&*self);
        }
        *self = NagiTimer {
            duration_ms: self.duration_ms,
            elapsed_ms: self.elapsed_ms,
            disturbance: self.disturbance,
            phase: self.phase,
            paused,
        };
    }

    /// The current state, reporting that an attempt ended with `end`.
    fn snapshot_ended(&self, end: SessionEnd) -> (r: RenderState)
        ensures
            r == ended_snapshot_of(self@, end),
    {
        let s = self.snapshot();
        RenderState { ended: Some(end), ..s }
    }

    /// Begins the same length again: nothing elapsed, a calm gauge, running.
    fn reset_to_start(&mut self)
        ensures
            final(self)@ == restarted(old(self)@),
            final(self)@.wf(),
    {
        *self = NagiTimer {
            duration_ms: self.duration_ms,
            elapsed_ms: 0,
            disturbance: 0,
            phase: Phase::Running,
            paused: self.paused,
        };
    }

    /// The current state as the presentation layer sees it; no attempt ends.
    pub fn snapshot(&self) -> (r: RenderState)
        ensures
            r == snapshot_of(self@),
            self@.wf(),
    {
        proof {
            use_type_invariant(self);
        }
        let remaining_ms: u64 = if self.phase == Phase::Running {
            self.duration_ms - self.elapsed_ms
        } else {
            0
        };
        RenderState { phase: self.phase, remaining_ms, disturbance: self.disturbance, ended: None }
    }
}

} // verus!
