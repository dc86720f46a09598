//! `ding` runs a command, reports how long it took, and plays a success or
//! failure sound when it finishes. This crate holds the decision logic of
//! that pipeline, verified: how the arguments are interpreted, which exit
//! code the caller sees, which clip is played, and how an elapsed time is
//! rendered. The process-level work (spawning, forking, audio output) lives
//! in the surrounding binary.

pub mod args;
pub mod duration;
pub mod outcome;
