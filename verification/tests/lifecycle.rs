use save_reminder::controller::AckOutcome;
use save_reminder::controller::Phase;
use save_reminder::controller::Reminder;
use save_reminder::controller::StartError;

#[test]
fn new_controller_has_the_defaults() {
    let r = Reminder::new();
    assert_eq!(r.duration_text(), "5");
    assert!(r.repeat());
    assert_eq!(r.phase(), Phase::Idle);
    assert_eq!(r.armed_token(), None);
}

#[test]
fn start_from_idle_arms_one_timer() {
    let mut r = Reminder::new();
    r.set_duration_text("12".to_string());
    assert_eq!(r.start(), Ok(12));
    assert_eq!(r.phase(), Phase::Counting);
    assert_eq!(r.armed_token(), None);
    r.timer_armed(3);
    assert_eq!(r.armed_token(), Some(3));
}

#[test]
fn start_while_counting_is_refused() {
    let mut r = Reminder::new();
    assert_eq!(r.start(), Ok(5));
    r.timer_armed(1);
    assert_eq!(r.start(), Err(StartError::NotIdle));
    assert_eq!(r.phase(), Phase::Counting);
    assert_eq!(r.armed_token(), Some(1));
}

#[test]
fn start_while_ringing_is_refused() {
    let mut r = Reminder::new();
    assert_eq!(r.start(), Ok(5));
    r.timer_armed(1);
    assert!(r.timer_fired(1));
    assert_eq!(r.start(), Err(StartError::NotIdle));
    assert_eq!(r.phase(), Phase::Ringing);
}

#[test]
fn start_with_invalid_duration_is_refused() {
    let mut r = Reminder::new();
    r.set_duration_text("soon".to_string());
    assert_eq!(r.start(), Err(StartError::InvalidDuration));
    assert_eq!(r.phase(), Phase::Idle);
    assert_eq!(r.armed_token(), None);
    // The text is left for the user to correct.
    assert_eq!(r.duration_text(), "soon");
}

#[test]
fn start_with_empty_duration_is_refused() {
    let mut r = Reminder::new();
    r.set_duration_text(String::new());
    assert_eq!(r.start(), Err(StartError::InvalidDuration));
    assert_eq!(r.phase(), Phase::Idle);
}

#[test]
fn stop_disarms_the_outstanding_timer() {
    let mut r = Reminder::new();
    assert_eq!(r.start(), Ok(5));
    r.timer_armed(9);
    assert_eq!(r.stop(), Some(9));
    assert_eq!(r.phase(), Phase::Idle);
    assert_eq!(r.armed_token(), None);
}

#[test]
fn stop_outside_counting_changes_nothing() {
    let mut r = Reminder::new();
    assert_eq!(r.stop(), None);
    assert_eq!(r.phase(), Phase::Idle);
    assert_eq!(r.start(), Ok(5));
    r.timer_armed(2);
    assert!(r.timer_fired(2));
    assert_eq!(r.stop(), None);
    assert_eq!(r.phase(), Phase::Ringing);
}

#[test]
fn matching_notification_rings_the_alarm() {
    let mut r = Reminder::new();
    assert_eq!(r.start(), Ok(5));
    r.timer_armed(14);
    assert!(r.timer_fired(14));
    assert_eq!(r.phase(), Phase::Ringing);
    assert_eq!(r.armed_token(), None);
}

#[test]
fn mismatched_notification_is_stale() {
    let mut r = Reminder::new();
    assert_eq!(r.start(), Ok(5));
    r.timer_armed(14);
    assert!(!r.timer_fired(15));
    assert_eq!(r.phase(), Phase::Counting);
    assert_eq!(r.armed_token(), Some(14));
    // The live countdown still fires afterwards.
    assert!(r.timer_fired(14));
    assert_eq!(r.phase(), Phase::Ringing);
}

#[test]
fn notification_after_stop_and_restart_is_stale() {
    let mut r = Reminder::new();
    assert_eq!(r.start(), Ok(5));
    r.timer_armed(1);
    assert_eq!(r.stop(), Some(1));
    assert_eq!(r.start(), Ok(5));
    r.timer_armed(2);
    // The old countdown's notification arrives late.
    assert!(!r.timer_fired(1));
    assert_eq!(r.phase(), Phase::Counting);
    assert_eq!(r.armed_token(), Some(2));
}

#[test]
fn acknowledge_without_repeat_returns_to_idle() {
    let mut r = Reminder::new();
    r.set_repeat(false);
    assert_eq!(r.start(), Ok(5));
    r.timer_armed(4);
    assert!(r.timer_fired(4));
    assert_eq!(r.acknowledge(), AckOutcome::AlarmStopped);
    assert_eq!(r.phase(), Phase::Idle);
    assert_eq!(r.armed_token(), None);
}

#[test]
fn acknowledge_with_repeat_rearms() {
    let mut r = Reminder::new();
    r.set_duration_text("30".to_string());
    assert_eq!(r.start(), Ok(30));
    r.timer_armed(4);
    assert!(r.timer_fired(4));
    assert_eq!(r.acknowledge(), AckOutcome::AlarmStoppedRearmed(30));
    assert_eq!(r.phase(), Phase::Counting);
    assert_eq!(r.armed_token(), None);
}

#[test]
fn acknowledge_outside_ringing_changes_nothing() {
    let mut r = Reminder::new();
    assert_eq!(r.acknowledge(), AckOutcome::NotRinging);
    assert_eq!(r.phase(), Phase::Idle);
    assert_eq!(r.start(), Ok(5));
    r.timer_armed(4);
    assert_eq!(r.acknowledge(), AckOutcome::NotRinging);
    assert_eq!(r.phase(), Phase::Counting);
    assert_eq!(r.armed_token(), Some(4));
}

#[test]
fn acknowledge_with_repeat_but_invalid_duration_returns_to_idle() {
    let mut r = Reminder::new();
    assert_eq!(r.start(), Ok(5));
    r.timer_armed(4);
    assert!(r.timer_fired(4));
    r.set_duration_text("later".to_string());
    assert_eq!(r.acknowledge(), AckOutcome::AlarmStoppedInvalidDuration);
    assert_eq!(r.phase(), Phase::Idle);
    assert_eq!(r.armed_token(), None);
}

#[test]
fn repeat_cycle_scenario() {
    // duration 5, repeat on: start, elapse, acknowledge, and the countdown
    // re-arms for 5 by itself.
    let mut r = Reminder::new();
    assert_eq!(r.duration_text(), "5");
    assert!(r.repeat());
    assert_eq!(r.start(), Ok(5));
    r.timer_armed(21);
    assert!(r.timer_fired(21));
    assert_eq!(r.phase(), Phase::Ringing);
    assert_eq!(r.acknowledge(), AckOutcome::AlarmStoppedRearmed(5));
    assert_eq!(r.phase(), Phase::Counting);
    assert_eq!(r.armed_token(), None);
}

#[test]
fn stop_before_elapse_scenario() {
    // duration 5, repeat off: start, stop before the timer fires, and the
    // old notification that arrives anyway rings nothing.
    let mut r = Reminder::new();
    r.set_repeat(false);
    assert_eq!(r.start(), Ok(5));
    r.timer_armed(33);
    assert_eq!(r.stop(), Some(33));
    assert_eq!(r.phase(), Phase::Idle);
    assert!(!r.timer_fired(33));
    assert_eq!(r.phase(), Phase::Idle);
    assert_eq!(r.armed_token(), None);
}

#[test]
fn repeat_flag_can_be_toggled() {
    let mut r = Reminder::new();
    r.set_repeat(false);
    assert!(!r.repeat());
    r.set_repeat(true);
    assert!(r.repeat());
}
