//! Verified core of an infrared-remote servo controller: a wrapping tick
//! clock, single-slot mailboxes, a servo position model, the edge-to-command
//! decode driver and the control-loop policy.

pub mod clock;
pub mod mailbox;
pub mod servo;
pub mod command;
pub mod decode;
pub mod control;
