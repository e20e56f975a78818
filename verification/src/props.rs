//! Properties of the reminder lifecycle, proved once for every state.
//!
//! Each proof function below states a guarantee of the transition functions
//! in [`crate::controller`], over the same mathematical views that the
//! executable methods' contracts use, so the guarantee carries over to every
//! call of those methods.

use crate::controller::AckOutcome;
use crate::controller::Phase;
use crate::controller::ReminderView;
use crate::controller::StartError;
use crate::controller::spec_acknowledge;
use crate::controller::spec_start;
use crate::controller::spec_stop;
use crate::controller::spec_timer_armed;
use crate::controller::spec_timer_fired;
use crate::parse::spec_parse_duration;
use vstd::prelude::*;

verus! {

/// From Idle, with a configured duration that parses as `d`, starting moves
/// to Counting, asks for exactly one timer of `d` minutes, and changes
/// nothing else: the configuration is kept and no token is recorded yet.
pub proof fn start_arms_one_timer(v: ReminderView, d: u64)
    requires
        v.wf(),
        v.phase() == Phase::Idle,
        spec_parse_duration(v.duration_text) == Some(d),
    ensures
        spec_start(v).1 == Ok::<u64, StartError>(d),
        spec_start(v).0 == (ReminderView { running: true, ..v }),
        spec_start(v).0.phase() == Phase::Counting,
        spec_start(v).0.armed == None::<u64>,
        spec_start(v).0.wf(),
{
}

/// From Idle, with a configured duration that does not parse, starting is
/// refused: the state — Idle included — is left exactly as it was and no
/// timer is asked for.
pub proof fn invalid_duration_start_refused(v: ReminderView)
    requires
        v.phase() == Phase::Idle,
        spec_parse_duration(v.duration_text) is None,
    ensures
        spec_start(v).1 == Err::<u64, StartError>(StartError::InvalidDuration),
        spec_start(v).0 == v,
{
}

/// Stopping in Counting moves to Idle and hands back the outstanding token
/// for disarming; after that, a notification bearing any token — the
/// disarmed one included — is stale: it changes no state and rings no alarm.
pub proof fn stop_disarms_and_stale_notification_is_ignored(v: ReminderView, token: u64)
    requires
        v.wf(),
        v.phase() == Phase::Counting,
    ensures
        spec_stop(v).0.phase() == Phase::Idle,
        spec_stop(v).0.wf(),
        spec_stop(v).1 == v.armed,
        spec_timer_fired(spec_stop(v).0, token).0 == spec_stop(v).0,
        spec_timer_fired(spec_stop(v).0, token).1 == false,
{
}

/// A notification whose token matches the recorded one, delivered in
/// Counting, moves to Ringing and commands exactly one start of the looping
/// alarm.
pub proof fn matching_notification_rings(v: ReminderView, token: u64)
    requires
        v.wf(),
        v.phase() == Phase::Counting,
        v.armed == Some(token),
    ensures
        spec_timer_fired(v, token).1 == true,
        spec_timer_fired(v, token).0 == (
        ReminderView { running: false, alarm_active: true, armed: None, ..v }),
        spec_timer_fired(v, token).0.phase() == Phase::Ringing,
        spec_timer_fired(v, token).0.wf(),
{
}

/// A notification whose token does not match the recorded one changes no
/// state and rings no alarm, in every phase.
pub proof fn stale_notification_is_ignored(v: ReminderView, token: u64)
    requires
        v.armed != Some(token),
    ensures
        spec_timer_fired(v, token).0 == v,
        spec_timer_fired(v, token).1 == false,
{
}

/// Acknowledging in Ringing with repeat off commands exactly one stop of the
/// looping alarm, arms nothing, and returns to Idle.
pub proof fn acknowledge_without_repeat(v: ReminderView)
    requires
        v.wf(),
        v.phase() == Phase::Ringing,
        !v.repeat,
    ensures
        spec_acknowledge(v).1 == AckOutcome::AlarmStopped,
        spec_acknowledge(v).0 == (ReminderView { alarm_active: false, ..v }),
        spec_acknowledge(v).0.phase() == Phase::Idle,
        spec_acknowledge(v).0.wf(),
{
}

/// Acknowledging in Ringing with repeat on commands exactly one stop of the
/// looping alarm and re-enters Counting, asking for exactly one new timer of
/// the currently configured duration. This needs the configured duration to
/// still parse; when it does not, the controller returns to Idle instead and
/// says so.
pub proof fn acknowledge_with_repeat_rearms(v: ReminderView, d: u64)
    requires
        v.wf(),
        v.phase() == Phase::Ringing,
        v.repeat,
        spec_parse_duration(v.duration_text) == Some(d),
    ensures
        spec_acknowledge(v).1 == AckOutcome::AlarmStoppedRearmed(d),
        spec_acknowledge(v).0 == (
        ReminderView { alarm_active: false, running: true, armed: None, ..v }),
        spec_acknowledge(v).0.phase() == Phase::Counting,
        spec_acknowledge(v).0.armed == None::<u64>,
        spec_acknowledge(v).0.wf(),
{
}

/// Every transition preserves well-formedness: the alarm never sounds while
/// a countdown is live, and a recorded token always belongs to a live
/// countdown.
pub proof fn transitions_preserve_wf(v: ReminderView, token: u64)
    requires
        v.wf(),
    ensures
        spec_start(v).0.wf(),
        spec_stop(v).0.wf(),
        spec_timer_fired(v, token).0.wf(),
        spec_acknowledge(v).0.wf(),
        v.running && v.armed == None::<u64> ==> spec_timer_armed(v, token).wf(),
{
}

} // verus!
