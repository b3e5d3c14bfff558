use nagi_core::{
    AbortReason, NagiTimer, Phase, RenderState, SessionEnd, SessionRecord, RESET_THRESHOLD,
};

fn approx(a: f64, b: f64) -> bool {
    (a - b).abs() < 1e-6
}

/// Seconds to whole milliseconds, as a frame delta.
fn ms(secs: f64) -> u64 {
    (secs * 1000.0).round() as u64
}

/// Seconds to whole milliseconds, as a session length.
fn len(secs: f64) -> i64 {
    (secs * 1000.0).round() as i64
}

fn remaining_secs(s: &RenderState) -> f64 {
    s.remaining_ms as f64 / 1000.0
}

fn gauge(s: &RenderState) -> f64 {
    s.disturbance as f64 / RESET_THRESHOLD as f64
}

#[test]
fn starts_in_idle() {
    let t = NagiTimer::new();
    assert_eq!(t.snapshot().phase, Phase::Idle);
}

#[test]
fn start_enters_running_with_full_remaining() {
    let mut t = NagiTimer::new();
    t.start(len(60.0));
    let s = t.snapshot();
    assert_eq!(s.phase, Phase::Running);
    assert!(approx(remaining_secs(&s), 60.0));
    assert!(approx(gauge(&s), 0.0));
}

#[test]
fn advances_and_completes_without_touch() {
    let mut t = NagiTimer::new();
    t.start(len(3.0));
    let s1 = t.tick(ms(1.0), false);
    assert_eq!(s1.phase, Phase::Running);
    assert!(approx(remaining_secs(&s1), 2.0));
    assert!(s1.ended.is_none());
    t.tick(ms(1.0), false);
    let s3 = t.tick(ms(1.0), false);
    assert_eq!(s3.phase, Phase::Completed);
    assert!(approx(remaining_secs(&s3), 0.0));
}

#[test]
fn completion_reports_completed_outcome() {
    let mut t = NagiTimer::new();
    t.start(len(1.0));
    let s = t.tick(ms(1.0), false);
    assert_eq!(s.phase, Phase::Completed);
    assert_eq!(s.ended, Some(SessionEnd::Completed));
}

#[test]
fn sustained_touch_resets_with_disturbance_reason() {
    let mut t = NagiTimer::new();
    t.start(len(60.0));
    // Rising at 0.5 per second: no reset before two seconds.
    let s = t.tick(ms(1.9), true);
    assert_eq!(s.phase, Phase::Running);
    assert!(s.ended.is_none());
    assert!(gauge(&s) > 0.9 && gauge(&s) < 1.0);
    // Two seconds reached: interrupted by disturbance, back to the start.
    let s = t.tick(ms(0.2), true);
    assert_eq!(s.ended, Some(SessionEnd::Aborted(AbortReason::Disturbance)));
    assert_eq!(s.phase, Phase::Running);
    assert!(approx(remaining_secs(&s), 60.0));
    assert!(approx(gauge(&s), 0.0));
}

#[test]
fn brief_touch_then_release_does_not_reset() {
    let mut t = NagiTimer::new();
    t.start(len(60.0));
    // A touch of 0.3 s raises the gauge to 0.15.
    let s = t.tick(ms(0.3), true);
    assert!(approx(gauge(&s), 0.15));
    assert!(s.ended.is_none());
    // Letting go drains 1.0 per second: 0.3 s brings it back to 0.
    let s = t.tick(ms(0.3), false);
    assert!(approx(gauge(&s), 0.0));
    assert_eq!(s.phase, Phase::Running);
    // Progress is kept: 0.6 s have elapsed in all.
    assert!(approx(remaining_secs(&s), 60.0 - 0.6));
}

#[test]
fn repeated_short_touches_outpacing_decay_eventually_reset() {
    let mut t = NagiTimer::new();
    t.start(len(60.0));
    // Touching 0.4 s (+0.2) then letting go 0.1 s (-0.1) gains 0.1 per cycle.
    let mut reason = None;
    for _ in 0..20 {
        let s = t.tick(ms(0.4), true);
        if let Some(SessionEnd::Aborted(r)) = s.ended {
            reason = Some(r);
            break;
        }
        t.tick(ms(0.1), false);
    }
    assert_eq!(
        reason,
        Some(AbortReason::Disturbance),
        "repeated touching should end in an interruption"
    );
}

#[test]
fn aborted_attempt_restarts_and_can_complete() {
    let mut t = NagiTimer::new();
    t.start(len(2.0));
    t.tick(ms(1.0), false); // one second left
    let aborted = t.tick(ms(2.0), true); // interrupted by touching
    assert_eq!(
        aborted.ended,
        Some(SessionEnd::Aborted(AbortReason::Disturbance))
    );
    // A fresh attempt from the start completes when left alone.
    let s = t.tick(ms(2.0), false);
    assert_eq!(s.phase, Phase::Completed);
    assert_eq!(s.ended, Some(SessionEnd::Completed));
}

#[test]
fn leave_reports_left_reason_and_restarts() {
    let mut t = NagiTimer::new();
    t.start(len(60.0));
    t.tick(ms(10.0), false);
    assert!(approx(remaining_secs(&t.snapshot()), 50.0));
    let s = t.leave();
    assert_eq!(s.ended, Some(SessionEnd::Aborted(AbortReason::Left)));
    assert_eq!(s.phase, Phase::Running);
    assert!(approx(remaining_secs(&s), 60.0)); // back to the start
}

#[test]
fn leave_is_noop_when_not_running() {
    let mut t = NagiTimer::new();
    let s = t.leave(); // leaving while idle changes nothing
    assert_eq!(s.phase, Phase::Idle);
    assert!(s.ended.is_none());
}

#[test]
fn paused_does_not_advance_time_then_resumes() {
    let mut t = NagiTimer::new();
    t.start(len(10.0));
    t.tick(ms(2.0), false);
    // Time stands still during an OS interruption.
    t.set_paused(true);
    let s = t.tick(ms(5.0), false);
    assert!(approx(remaining_secs(&s), 8.0));
    // It runs again once the interruption is over.
    t.set_paused(false);
    let s = t.tick(ms(3.0), false);
    assert!(approx(remaining_secs(&s), 5.0));
}

#[test]
fn disturbance_is_clamped_to_unit_interval() {
    let mut t = NagiTimer::new();
    t.start(len(600.0));
    // Letting go for long does not drive the gauge below 0.
    let s = t.tick(ms(5.0), false);
    assert!(approx(gauge(&s), 0.0));
}

#[test]
fn ticks_after_completion_are_noop() {
    let mut t = NagiTimer::new();
    t.start(len(1.0));
    let s = t.tick(ms(1.0), false);
    assert_eq!(s.phase, Phase::Completed);
    // After completion a tick changes nothing and reports no ending again.
    let s = t.tick(ms(1.0), true);
    assert_eq!(s.phase, Phase::Completed);
    assert!(s.ended.is_none());
}

#[test]
fn session_record_assembles_from_outcome() {
    // The caller records the outcome of the ending frame with the wall clock
    // and the chosen length.
    let ended = SessionEnd::Aborted(AbortReason::Left);
    let record = SessionRecord {
        started_at_epoch_secs: 1_700_000_000,
        duration_set_ms: ms(300.0),
        outcome: ended,
    };
    assert_eq!(record.outcome, SessionEnd::Aborted(AbortReason::Left));
    assert!(approx(record.duration_set_ms as f64 / 1000.0, 300.0));
}
