//! The reminder lifecycle state machine.
//!
//! A [`Reminder`] is in one of three phases. Idle: nothing is armed and no
//! alarm sounds. Counting: exactly one countdown is live, identified by the
//! token the timer facility handed back when it was armed. Ringing: the
//! countdown fired and the alarm sounds until the user acknowledges it.
//!
//! The controller owns no timer and no speaker. Each transition returns what
//! the caller must do — arm a timer for so many minutes, disarm this token,
//! start or stop the looping alarm — and the caller reports timer
//! notifications back with their token. A notification whose token does not
//! match the one on record is stale (the countdown it belonged to was stopped
//! or already handled) and must change nothing; the token comparison here is
//! that guard.

use crate::parse::spec_parse_duration;
use crate::parse::parse_duration;
use vstd::prelude::*;

verus! {

/// The three phases of the lifecycle.
#[derive(Clone, Copy, Debug, PartialEq, Eq, Structural)]
pub enum Phase {
    /// No countdown is live and no alarm sounds.
    Idle,
    /// Exactly one countdown is live.
    Counting,
    /// The alarm sounds, waiting to be acknowledged.
    Ringing,
}

/// Why a request to start a countdown was refused.
#[derive(Clone, Copy, Debug, PartialEq, Eq, Structural)]
pub enum StartError {
    /// The configured duration text is not a non-negative integer.
    InvalidDuration,
    /// A countdown is already live or the alarm is sounding.
    NotIdle,
}

/// What acknowledging the alarm asks the caller to do.
#[derive(Clone, Copy, Debug, PartialEq, Eq, Structural)]
pub enum AckOutcome {
    /// No alarm was sounding; nothing to do.
    NotRinging,
    /// Stop the looping alarm; the reminder is done.
    AlarmStopped,
    /// Stop the looping alarm and arm a new timer for this many minutes.
    AlarmStoppedRearmed(u64),
    /// Stop the looping alarm; re-arming was due but the configured duration
    /// no longer parses, so the reminder returns to Idle instead.
    AlarmStoppedInvalidDuration,
}

/// The mathematical state of a [`Reminder`].
pub struct ReminderView {
    /// The configured wait duration, as typed by the user.
    pub duration_text: Seq<char>,
    /// Whether acknowledging an alarm re-arms the countdown automatically.
    pub repeat: bool,
    /// Whether a countdown is live.
    pub running: bool,
    /// Whether the alarm sounds, unacknowledged.
    pub alarm_active: bool,
    /// The token of the live countdown's timer, once the timer facility has
    /// handed it back.
    pub armed: Option<u64>,
}

impl ReminderView {
    /// Well-formedness: the alarm never sounds while a countdown is live, and
    /// a recorded token always belongs to a live countdown.
    pub open spec fn wf(self) -> bool {
        &&& !(self.running && self.alarm_active)
        &&& self.armed is Some ==> self.running
    }

    /// The phase this state is in.
    pub open spec fn phase(self) -> Phase {
        if self.running {
            Phase::Counting
        } else if self.alarm_active {
            Phase::Ringing
        } else {
            Phase::Idle
        }
    }
}

/// What `start` does: from Idle with a parsable duration `d`, move to
/// Counting and ask the caller to arm one timer for `d` minutes; from Idle
/// with unparsable text, refuse and stay put; from any other phase, refuse
/// and stay put.
pub open spec fn spec_start(v: ReminderView) -> (ReminderView, Result<u64, StartError>) {
    if v.phase() != Phase::Idle {
        (v, Err(StartError::NotIdle))
    } else {
        match spec_parse_duration(v.duration_text) {
            Some(d) => ((ReminderView { running: true, ..v }), Ok(d)),
            None => (v, Err(StartError::InvalidDuration)),
        }
    }
}

/// What `stop` does: from Counting, move to Idle and hand back the token to
/// disarm, if one was recorded; from any other phase, change nothing.
pub open spec fn spec_stop(v: ReminderView) -> (ReminderView, Option<u64>) {
    if v.running {
        ((ReminderView { running: false, armed: None, ..v }), v.armed)
    } else {
        (v, None)
    }
}

/// What recording a freshly armed timer's token does.
pub open spec fn spec_timer_armed(v: ReminderView, token: u64) -> ReminderView {
    ReminderView { armed: Some(token), ..v }
}

/// What a timer notification does: if a countdown is live and the token
/// matches the recorded one, move to Ringing and ask the caller to start the
/// looping alarm; any other notification is stale and changes nothing.
pub open spec fn spec_timer_fired(v: ReminderView, token: u64) -> (ReminderView, bool) {
    if v.running && v.armed == Some(token) {
        ((ReminderView { running: false, alarm_active: true, armed: None, ..v }), true)
    } else {
        (v, false)
    }
}

/// What `acknowledge` does: from Ringing, silence the alarm; with repeat on
/// and a parsable duration `d`, immediately re-enter Counting and ask the
/// caller to arm a new timer for `d` minutes; otherwise return to Idle. From
/// any other phase, change nothing.
pub open spec fn spec_acknowledge(v: ReminderView) -> (ReminderView, AckOutcome) {
    if !v.alarm_active {
        (v, AckOutcome::NotRinging)
    } else if v.repeat {
        match spec_parse_duration(v.duration_text) {
            Some(d) => (
                (ReminderView { alarm_active: false, running: true, armed: None, ..v }),
                AckOutcome::AlarmStoppedRearmed(d),
            ),
            None => (
                (ReminderView { alarm_active: false, ..v }),
                AckOutcome::AlarmStoppedInvalidDuration,
            ),
        }
    } else {
        ((ReminderView { alarm_active: false, ..v }), AckOutcome::AlarmStopped)
    }
}

/// The reminder lifecycle controller.
pub struct Reminder {
    duration_text: String,
    repeat: bool,
    running: bool,
    alarm_active: bool,
    armed: Option<u64>,
}

impl View for Reminder {
    type V = ReminderView;

    closed spec fn view(&self) -> ReminderView {
        ReminderView {
            duration_text: self.duration_text@,
            repeat: self.repeat,
            running: self.running,
            alarm_active: self.alarm_active,
            armed: self.armed,
        }
    }
}

impl Reminder {
    /// A fresh controller: five minutes, repeat on, Idle.
    pub fn new() -> (r: Reminder)
        ensures
            r@.duration_text == "5"@,
            r@.repeat == true,
            r@.running == false,
            r@.alarm_active == false,
            r@.armed == None::<u64>,
    {
        Reminder {
            duration_text: "5".to_owned(),
            repeat: true,
            running: false,
            alarm_active: false,
            armed: None,
        }
    }

    /// Replace the configured wait duration text.
    pub fn set_duration_text(&mut self, text: String)
        ensures
            final(self)@ == (ReminderView { duration_text: text@, ..old(self)@ }),
    {
        self.duration_text = text;
    }

    /// Switch automatic re-arming on or off.
    pub fn set_repeat(&mut self, repeat: bool)
        ensures
            final(self)@ == (ReminderView { repeat, ..old(self)@ }),
    {
        self.repeat = repeat;
    }

    /// The configured wait duration, as typed.
    pub fn duration_text(&self) -> (r: &str)
        ensures
            r@ == self@.duration_text,
    {
        self.duration_text.as_str()
    }

    /// Whether acknowledging an alarm re-arms the countdown automatically.
    pub fn repeat(&self) -> (r: bool)
        ensures
            r == self@.repeat,
    {
        self.repeat
    }

    /// The token of the live countdown's timer, if one is recorded.
    pub fn armed_token(&self) -> (r: Option<u64>)
        ensures
            r == self@.armed,
    {
        self.armed
    }

    /// The phase the controller is in.
    pub fn phase(&self) -> (r: Phase)
        ensures
            r == self@.phase(),
    {
        if self.running {
            Phase::Counting
        } else if self.alarm_active {
            Phase::Ringing
        } else {
            Phase::Idle
        }
    }

    /// Start the countdown. On success the caller must arm one timer for the
    /// returned number of minutes and then record its token with
    /// [`Reminder::timer_armed`]. Refused outside Idle and when the
    /// configured duration text does not parse; state is left unchanged then.
    pub fn start(&mut self) -> (r: Result<u64, StartError>)
        ensures
            final(self)@ == spec_start(old(self)@).0,
            r == spec_start(old(self)@).1,
            old(self)@.wf() ==> final(self)@.wf(),
    {
        if self.running || self.alarm_active {
            return Err(StartError::NotIdle);
        }
        match parse_duration(self.duration_text.as_str()) {
            Some(d) => {
                self.running = true;
                Ok(d)
            },
            None => Err(StartError::InvalidDuration),
        }
    }

    /// Record the token the timer facility handed back for the countdown that
    /// was just started or re-armed. The countdown must be live and no token
    /// recorded yet: tokens are recorded once, right after arming.
    pub fn timer_armed(&mut self, token: u64)
        requires
            old(self)@.running,
            old(self)@.armed == None::<u64>,
        ensures
            final(self)@ == spec_timer_armed(old(self)@, token),
            old(self)@.wf() ==> final(self)@.wf(),
    {
        self.armed = Some(token);
    }

    /// Stop the countdown. Returns the token the caller must disarm, if one
    /// was recorded. Outside Counting this changes nothing. Disarming is
    /// best-effort: a notification delivered anyway no longer matches any
    /// recorded token and is ignored as stale.
    pub fn stop(&mut self) -> (r: Option<u64>)
        ensures
            final(self)@ == spec_stop(old(self)@).0,
            r == spec_stop(old(self)@).1,
            old(self)@.wf() ==> final(self)@.wf(),
    {
        if self.running {
            self.running = false;
            let token = self.armed;
            self.armed = None;
            token
        } else {
            None
        }
    }

    /// Report a timer notification bearing its token. Returns true exactly
    /// when the notification belongs to the live countdown: the caller must
    /// then start the looping alarm. A stale notification — wrong token, or
    /// no countdown live — returns false and changes nothing; the caller may
    /// log it.
    pub fn timer_fired(&mut self, token: u64) -> (r: bool)
        ensures
            final(self)@ == spec_timer_fired(old(self)@, token).0,
            r == spec_timer_fired(old(self)@, token).1,
            old(self)@.wf() ==> final(self)@.wf(),
    {
        let hit = match self.armed {
            Some(t) => self.running && t == token,
            None => false,
        };
        if hit {
            self.running = false;
            self.alarm_active = true;
            self.armed = None;
            true
        } else {
            false
        }
    }

    /// Acknowledge the alarm. From Ringing the caller must stop the looping
    /// alarm; with repeat on and a parsable configured duration the
    /// controller re-enters Counting and the caller must arm a new timer for
    /// the returned number of minutes (recording its token with
    /// [`Reminder::timer_armed`]), otherwise the controller returns to Idle.
    /// Outside Ringing this changes nothing.
    pub fn acknowledge(&mut self) -> (r: AckOutcome)
        ensures
            final(self)@ == spec_acknowledge(old(self)@).0,
            r == spec_acknowledge(old(self)@).1,
            old(self)@.wf() ==> final(self)@.wf(),
    {
        if !self.alarm_active {
            return AckOutcome::NotRinging;
        }
        self.alarm_active = false;
        if self.repeat {
            match parse_duration(self.duration_text.as_str()) {
                Some(d) => {
                    self.running = true;
                    self.armed = None;
                    AckOutcome::AlarmStoppedRearmed(d)
                },
                None => AckOutcome::AlarmStoppedInvalidDuration,
            }
        } else {
            AckOutcome::AlarmStopped
        }
    }
}

} // verus!
