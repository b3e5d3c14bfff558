//! Properties of the session rules that hold for every state and input.
use vstd::prelude::*;

use crate::{
    gauge_after, leave_step, restarted, snapshot_of, started, tick_step, AbortReason, Phase,
    SessionEnd, TimerState, DECAY_PER_MS, RESET_THRESHOLD, RISE_PER_MS,
};

verus! {

/// Every operation keeps a timer in a valid state, and the gauge it shows
/// stays below the reset threshold.
pub proof fn operations_keep_state_valid(s: TimerState, dt_ms: u64, touching: bool, duration_ms: i64)
    requires
        s.wf(),
    ensures
        tick_step(s, dt_ms, touching).0.wf(),
        tick_step(s, dt_ms, touching).1.disturbance < RESET_THRESHOLD,
        leave_step(s).0.wf(),
        leave_step(s).1.disturbance < RESET_THRESHOLD,
        started(duration_ms).wf(),
        (TimerState { paused: !s.paused, ..s }).wf(),
{
}

/// Starting shows the whole chosen length remaining (a negative length
/// counts as zero), a calm gauge, and no ending.
pub proof fn start_shows_full_length(duration_ms: i64)
    ensures
        snapshot_of(started(duration_ms)).phase == Phase::Running,
        snapshot_of(started(duration_ms)).remaining_ms == if duration_ms < 0 {
            0
        } else {
            duration_ms as int
        },
        snapshot_of(started(duration_ms)).disturbance == 0,
        snapshot_of(started(duration_ms)).ended is None,
{
}

/// The remaining time shown never exceeds the chosen length.
pub proof fn remaining_never_exceeds_length(s: TimerState)
    requires
        s.wf(),
    ensures
        snapshot_of(s).remaining_ms <= s.duration_ms,
{
}

/// A tick changes nothing and reports no ending unless the timer is running
/// and not paused: an idle or completed timer stays as it is, and time does
/// not pass during an OS interruption.
pub proof fn tick_is_inert_unless_running(s: TimerState, dt_ms: u64, touching: bool)
    requires
        s.phase != Phase::Running || s.paused,
    ensures
        tick_step(s, dt_ms, touching).0 == s,
        tick_step(s, dt_ms, touching).1 == snapshot_of(s),
        tick_step(s, dt_ms, touching).1.ended is None,
{
}

/// A completed session is final: neither ticks nor leaving change it or
/// report another ending.
pub proof fn completion_is_final(s: TimerState, dt_ms: u64, touching: bool)
    requires
        s.phase == Phase::Completed,
    ensures
        tick_step(s, dt_ms, touching).0 == s,
        tick_step(s, dt_ms, touching).1.ended is None,
        leave_step(s).0 == s,
        leave_step(s).1.ended is None,
        leave_step(s).1.remaining_ms == 0,
{
}

/// An interrupted attempt begins again with the same length: running,
/// nothing elapsed, a calm gauge, the full length remaining.
pub proof fn interruption_restarts_same_length(s: TimerState, dt_ms: u64, touching: bool)
    requires
        s.wf(),
    ensures
        tick_step(s, dt_ms, touching).1.ended matches Some(SessionEnd::Aborted(_)) ==> {
            &&& tick_step(s, dt_ms, touching).0 == restarted(s)
            &&& tick_step(s, dt_ms, touching).1.phase == Phase::Running
            &&& tick_step(s, dt_ms, touching).1.remaining_ms == s.duration_ms
            &&& tick_step(s, dt_ms, touching).1.disturbance == 0
        },
        leave_step(s).1.ended matches Some(SessionEnd::Aborted(_)) ==> {
            &&& leave_step(s).0 == restarted(s)
            &&& leave_step(s).1.phase == Phase::Running
            &&& leave_step(s).1.remaining_ms == s.duration_ms
            &&& leave_step(s).1.disturbance == 0
        },
{
}

/// Leaving a running session always interrupts it, paused or not; leaving
/// at any other time does nothing.
pub proof fn leaving_interrupts_exactly_running_sessions(s: TimerState)
    ensures
        s.phase == Phase::Running <==> leave_step(s).1.ended == Some(
            SessionEnd::Aborted(AbortReason::Left),
        ),
        s.phase != Phase::Running ==> leave_step(s).0 == s && leave_step(s).1.ended is None,
{
}

/// Not touching never interrupts an attempt.
pub proof fn releasing_never_interrupts(s: TimerState, dt_ms: u64)
    requires
        s.wf(),
    ensures
        !(tick_step(s, dt_ms, false).1.ended matches Some(SessionEnd::Aborted(_))),
{
}

/// Letting go for at least a second brings the gauge back to zero.
pub proof fn releasing_a_second_calms_the_gauge(s: TimerState, dt_ms: u64)
    requires
        s.wf(),
        s.phase == Phase::Running,
        !s.paused,
        dt_ms >= 1000,
    ensures
        tick_step(s, dt_ms, false).0.disturbance == 0,
        tick_step(s, dt_ms, false).1.disturbance == 0,
{
}

/// Touching continuously for two seconds interrupts a running attempt,
/// whatever the gauge was before.
pub proof fn sustained_touch_interrupts(s: TimerState, dt_ms: u64)
    requires
        s.phase == Phase::Running,
        !s.paused,
        dt_ms >= 2000,
    ensures
        tick_step(s, dt_ms, true).1.ended == Some(SessionEnd::Aborted(AbortReason::Disturbance)),
{
}

/// A frame that neither fills the gauge nor reaches the end keeps the
/// progress made so far: the remaining time shrinks by exactly the frame.
pub proof fn calm_frames_keep_progress(s: TimerState, dt_ms: u64, touching: bool)
    requires
        s.wf(),
        s.phase == Phase::Running,
        !s.paused,
        gauge_after(s.disturbance, dt_ms, touching) < RESET_THRESHOLD,
        s.elapsed_ms + dt_ms < s.duration_ms,
    ensures
        tick_step(s, dt_ms, touching).1.ended is None,
        tick_step(s, dt_ms, touching).1.phase == Phase::Running,
        tick_step(s, dt_ms, touching).1.remaining_ms + dt_ms == snapshot_of(s).remaining_ms,
{
}

/// Reaching the chosen length without filling the gauge completes the
/// session and reports it once, with nothing remaining.
pub proof fn reaching_the_length_completes(s: TimerState, dt_ms: u64, touching: bool)
    requires
        s.wf(),
        s.phase == Phase::Running,
        !s.paused,
        gauge_after(s.disturbance, dt_ms, touching) < RESET_THRESHOLD,
        s.elapsed_ms + dt_ms >= s.duration_ms,
    ensures
        tick_step(s, dt_ms, touching).0.phase == Phase::Completed,
        tick_step(s, dt_ms, touching).1.ended == Some(SessionEnd::Completed),
        tick_step(s, dt_ms, touching).1.remaining_ms == 0,
{
}

/// Repeats `cycles` times: touch for `touch_ms`, then let go for
/// `release_ms`, stopping at the first touch that interrupts the attempt.
/// Gives the state afterwards and whether such an interruption happened.
pub open spec fn touch_release_cycles(s: TimerState, cycles: nat, touch_ms: u64, release_ms: u64) -> (
    TimerState,
    bool,
)
    decreases cycles,
{
    if cycles == 0 {
        (s, false)
    } else {
        let (t, r) = tick_step(s, touch_ms, true);
        if r.ended == Some(SessionEnd::Aborted(AbortReason::Disturbance)) {
            (t, true)
        } else {
            touch_release_cycles(tick_step(t, release_ms, false).0, (cycles - 1) as nat, touch_ms, release_ms)
        }
    }
}

/// Short touches that add to the gauge faster than the pauses between them
/// drain it eventually interrupt the attempt: once the net gain per cycle,
/// repeated, covers what is left below the threshold, some touch of those
/// cycles resets the session (provided the session does not end first).
pub proof fn repeated_touches_outpacing_decay_interrupt(
    s: TimerState,
    cycles: nat,
    touch_ms: u64,
    release_ms: u64,
)
    requires
        s.wf(),
        s.phase == Phase::Running,
        !s.paused,
        RISE_PER_MS * touch_ms > DECAY_PER_MS * release_ms,
        s.disturbance + cycles * (RISE_PER_MS * touch_ms - DECAY_PER_MS * release_ms)
            >= RESET_THRESHOLD,
        s.elapsed_ms + cycles * (touch_ms + release_ms) < s.duration_ms,
    ensures
        touch_release_cycles(s, cycles, touch_ms, release_ms).1,
    decreases cycles,
{
    let net: int = RISE_PER_MS * touch_ms - DECAY_PER_MS * release_ms;
    let per: int = touch_ms + release_ms;
    if cycles == 0 {
    } else {
        let (t, r) = tick_step(s, touch_ms, true);
        if r.ended == Some(SessionEnd::Aborted(AbortReason::Disturbance)) {
        } else {
            assert(cycles * per == (cycles - 1) * per + per) by (nonlinear_arith);
            assert(cycles * net == (cycles - 1) * net + net) by (nonlinear_arith);
            assert((cycles - 1) * per >= 0) by (nonlinear_arith)
                requires
                    cycles >= 1,
                    per >= 0,
            ;
            let u = tick_step(t, release_ms, false).0;
            assert(u.phase == Phase::Running);
            assert(u.elapsed_ms == s.elapsed_ms + per);
            assert(u.disturbance >= s.disturbance + net);
            repeated_touches_outpacing_decay_interrupt(u, (cycles - 1) as nat, touch_ms, release_ms);
        }
    }
}

/// What a frame shows, read off the state: its phase, the gauge as it is
/// (paused or not), the chosen length minus the time elapsed while running
/// and nothing otherwise, and no ending. Pausing does not change it.
pub proof fn snapshot_shows_the_state(s: TimerState, paused: bool)
    requires
        s.wf(),
    ensures
        snapshot_of(s).phase == s.phase,
        snapshot_of(s).disturbance == s.disturbance,
        snapshot_of(s).ended is None,
        s.phase == Phase::Running ==> snapshot_of(s).remaining_ms == s.duration_ms - s.elapsed_ms,
        s.phase != Phase::Running ==> snapshot_of(s).remaining_ms == 0,
        snapshot_of(TimerState { paused, ..s }) == snapshot_of(s),
{
}

/// Only starting changes the chosen length: no frame and no leaving does.
pub proof fn only_start_changes_the_length(s: TimerState, dt_ms: u64, touching: bool)
    ensures
        tick_step(s, dt_ms, touching).0.duration_ms == s.duration_ms,
        leave_step(s).0.duration_ms == s.duration_ms,
        tick_step(s, dt_ms, touching).0.paused == s.paused,
        leave_step(s).0.paused == s.paused,
{
}

/// A frame of touching while running: the gauge rises by `RISE_PER_MS` per
/// millisecond. If that fills it, the attempt is interrupted whatever time
/// is left, and the same length begins again from nothing; otherwise time
/// advances by the frame, and reaching the length completes the session.
pub proof fn touching_frame(s: TimerState, dt_ms: u64)
    requires
        s.wf(),
        s.phase == Phase::Running,
        !s.paused,
    ensures
        s.disturbance + RISE_PER_MS * dt_ms >= RESET_THRESHOLD ==> {
            &&& tick_step(s, dt_ms, true).1.ended == Some(
                SessionEnd::Aborted(AbortReason::Disturbance),
            )
            &&& tick_step(s, dt_ms, true).0 == (TimerState {
                duration_ms: s.duration_ms,
                elapsed_ms: 0,
                disturbance: 0,
                phase: Phase::Running,
                paused: false,
            })
            &&& tick_step(s, dt_ms, true).1.phase == Phase::Running
            &&& tick_step(s, dt_ms, true).1.remaining_ms == s.duration_ms
            &&& tick_step(s, dt_ms, true).1.disturbance == 0
        },
        s.disturbance + RISE_PER_MS * dt_ms < RESET_THRESHOLD && s.elapsed_ms + dt_ms
            >= s.duration_ms ==> {
            &&& tick_step(s, dt_ms, true).1.ended == Some(SessionEnd::Completed)
            &&& tick_step(s, dt_ms, true).0 == (TimerState {
                duration_ms: s.duration_ms,
                elapsed_ms: s.duration_ms,
                disturbance: (s.disturbance + RISE_PER_MS * dt_ms) as u64,
                phase: Phase::Completed,
                paused: false,
            })
            &&& tick_step(s, dt_ms, true).1.phase == Phase::Completed
            &&& tick_step(s, dt_ms, true).1.remaining_ms == 0
            &&& tick_step(s, dt_ms, true).1.disturbance == s.disturbance + RISE_PER_MS * dt_ms
        },
        s.disturbance + RISE_PER_MS * dt_ms < RESET_THRESHOLD && s.elapsed_ms + dt_ms
            < s.duration_ms ==> {
            &&& tick_step(s, dt_ms, true).1.ended is None
            &&& tick_step(s, dt_ms, true).0 == (TimerState {
                duration_ms: s.duration_ms,
                elapsed_ms: (s.elapsed_ms + dt_ms) as u64,
                disturbance: (s.disturbance + RISE_PER_MS * dt_ms) as u64,
                phase: Phase::Running,
                paused: false,
            })
            &&& tick_step(s, dt_ms, true).1.phase == Phase::Running
            &&& tick_step(s, dt_ms, true).1.remaining_ms == s.duration_ms - s.elapsed_ms - dt_ms
            &&& tick_step(s, dt_ms, true).1.disturbance == s.disturbance + RISE_PER_MS * dt_ms
        },
{
}

/// A frame without touching while running: the gauge falls by
/// `DECAY_PER_MS` per millisecond, stopping at zero, time advances by the
/// frame, and reaching the length completes the session.
pub proof fn releasing_frame(s: TimerState, dt_ms: u64)
    requires
        s.wf(),
        s.phase == Phase::Running,
        !s.paused,
    ensures
        tick_step(s, dt_ms, false).1.disturbance == if s.disturbance >= DECAY_PER_MS * dt_ms {
            s.disturbance - DECAY_PER_MS * dt_ms
        } else {
            0
        },
        tick_step(s, dt_ms, false).0.disturbance == tick_step(s, dt_ms, false).1.disturbance,
        s.elapsed_ms + dt_ms >= s.duration_ms ==> {
            &&& tick_step(s, dt_ms, false).1.ended == Some(SessionEnd::Completed)
            &&& tick_step(s, dt_ms, false).0.phase == Phase::Completed
            &&& tick_step(s, dt_ms, false).0.elapsed_ms == s.duration_ms
            &&& tick_step(s, dt_ms, false).1.remaining_ms == 0
        },
        s.elapsed_ms + dt_ms < s.duration_ms ==> {
            &&& tick_step(s, dt_ms, false).1.ended is None
            &&& tick_step(s, dt_ms, false).0.phase == Phase::Running
            &&& tick_step(s, dt_ms, false).0.elapsed_ms == s.elapsed_ms + dt_ms
            &&& tick_step(s, dt_ms, false).1.remaining_ms == s.duration_ms - s.elapsed_ms - dt_ms
        },
{
}

/// Leaving a running session, paused or not, interrupts it: the same length
/// begins again from nothing, with a calm gauge and the pause kept as it
/// was. Every later interruption restarts the same chosen length again.
pub proof fn leaving_restarts_the_chosen_length(s: TimerState)
    requires
        s.wf(),
        s.phase == Phase::Running,
    ensures
        leave_step(s).1.ended == Some(SessionEnd::Aborted(AbortReason::Left)),
        leave_step(s).0 == (TimerState {
            duration_ms: s.duration_ms,
            elapsed_ms: 0,
            disturbance: 0,
            phase: Phase::Running,
            paused: s.paused,
        }),
        leave_step(s).1.phase == Phase::Running,
        leave_step(s).1.remaining_ms == s.duration_ms,
        leave_step(s).1.disturbance == 0,
        restarted(s).duration_ms == s.duration_ms,
        restarted(s).elapsed_ms == 0,
{
}

/// Starting sets the chosen length (a negative one counts as zero), with
/// nothing elapsed, a calm gauge, running and not paused, whatever came
/// before.
pub proof fn start_sets_the_length(duration_ms: i64)
    ensures
        started(duration_ms) == (TimerState {
            duration_ms: if duration_ms < 0 { 0 } else { duration_ms as u64 },
            elapsed_ms: 0,
            disturbance: 0,
            phase: Phase::Running,
            paused: false,
        }),
{
}

} // verus!
