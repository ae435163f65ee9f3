//! A resettable countdown timer: the rules that decide how long each countdown
//! cycle waits, when the controller may start or stop the timer, and what the
//! background loop does when a wait ends.

pub mod control;
pub mod countdown;
pub mod error;
pub mod interval;
