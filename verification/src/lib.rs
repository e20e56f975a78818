//! A save-reminder lifecycle library.
//!
//! The heart of the library is a small finite state machine: a countdown is
//! configured in minutes and started, a one-shot timer is armed for it, and
//! when the timer's notification comes back the alarm rings until the user
//! acknowledges it, optionally re-arming the countdown automatically.
//!
//! The surrounding timer, alarm and window facilities are external
//! collaborators: the library decides every transition and tells its caller
//! which action to perform (arm a timer, disarm one, start or stop the
//! looping alarm), and the caller feeds user input and timer notifications
//! back in as plain values.

pub mod controller;
pub mod parse;
pub mod props;
