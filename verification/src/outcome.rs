//! Exit-code and notification decisions.
//!
//! The program's observable result is an exit code, computed in three steps:
//! the subprocess's outcome becomes a result code, the fork outcome decides
//! which process reports it, and the duplicated process always exits 0 once
//! playback has been attempted.

use vstd::prelude::*;

verus! {

/// How running the requested subprocess ended.
#[derive(Debug, PartialEq, Eq, Clone, Copy)]
pub enum SpawnOutcome {
    /// The subprocess was spawned and exited; `Some(c)` is its exit code,
    /// `None` means it was terminated without one (by a signal).
    Exited(Option<i32>),
    /// The subprocess could not be spawned at all.
    SpawnFailed,
}

/// Where execution continues after duplicating the process.
#[derive(Debug, PartialEq, Eq, Clone, Copy)]
pub enum ForkOutcome {
    /// The original process, which reports the result code.
    InParent,
    /// The duplicate, which plays the notification and exits 0.
    InChild,
    /// Duplication itself failed; no notification can happen.
    ForkFailed,
}

/// Which of the two embedded clips the notification plays.
#[derive(Debug, PartialEq, Eq, Clone, Copy)]
pub enum Clip {
    Success,
    Failure,
}

/// The result code a spawn outcome stands for: the subprocess's own code,
/// 0 when it left none, 1 when it could not be spawned.
pub open spec fn spawn_result_code(s: SpawnOutcome) -> int {
    match s {
        SpawnOutcome::Exited(Some(c)) => c as int,
        SpawnOutcome::Exited(None) => 0,
        SpawnOutcome::SpawnFailed => 1,
    }
}

/// The exit code of one of the two processes after the fork: the original
/// reports `code`, the duplicate exits 0, and when duplication failed the
/// sole process exits 1 whatever `code` was.
pub open spec fn process_exit_spec(f: ForkOutcome, code: int) -> int {
    match f {
        ForkOutcome::InParent => code,
        ForkOutcome::InChild => 0,
        ForkOutcome::ForkFailed => 1,
    }
}

/// The exit code of the duplicated process once playback has been attempted;
/// `audio_ok` tells whether device init, decoding and playback all worked.
pub open spec fn child_exit_spec(audio_ok: bool) -> int {
    0
}

/// The clip chosen for a result code: success for 0, failure otherwise.
pub open spec fn clip_spec(code: int) -> Clip {
    if code == 0 {
        Clip::Success
    } else {
        Clip::Failure
    }
}

/// Turns the subprocess's outcome into the result code to report.
pub fn result_code(s: &SpawnOutcome) -> (r: i32)
    ensures
        r as int == spawn_result_code(*s),
{
    match s {
        SpawnOutcome::Exited(Some(c)) => *c,
        SpawnOutcome::Exited(None) => 0,
        SpawnOutcome::SpawnFailed => 1,
    }
}

/// The exit code of the running process after the fork point.
pub fn process_exit_code(f: &ForkOutcome, code: i32) -> (r: i32)
    ensures
        r as int == process_exit_spec(*f, code as int),
{
    match f {
        ForkOutcome::InParent => code,
        ForkOutcome::InChild => 0,
        ForkOutcome::ForkFailed => 1,
    }
}

/// The exit code of the duplicate after it has attempted playback: 0 whether
/// or not the audio worked. A notification failure is invisible by design.
pub fn child_exit_code(audio_ok: bool) -> (r: i32)
    ensures
        r as int == child_exit_spec(audio_ok),
        r == 0,
{
    0
}

/// Picks the clip for a result code.
pub fn clip_for(code: i32) -> (r: Clip)
    ensures
        r == clip_spec(code as int),
{
    if code == 0 {
        Clip::Success
    } else {
        Clip::Failure
    }
}

/// A subprocess that exits with code `c` is reported as `c` by the original
/// process whenever duplication succeeds.
pub proof fn lemma_exit_code_propagated(c: i32)
    ensures
        process_exit_spec(
            ForkOutcome::InParent,
            spawn_result_code(SpawnOutcome::Exited(Some(c))),
        ) == c as int,
{
}

/// Whether playback succeeded has no bearing on any process's exit code:
/// the duplicate exits 0 either way, and the original's code is fixed
/// before the audio ever runs.
pub proof fn lemma_audio_outcome_invisible(a1: bool, a2: bool)
    ensures
        child_exit_spec(a1) == child_exit_spec(a2),
        child_exit_spec(a1) == 0,
{
}

/// When duplication fails the program exits 1, whatever the subprocess's
/// result code was.
pub proof fn lemma_fork_failure_overrides(c1: int, c2: int)
    ensures
        process_exit_spec(ForkOutcome::ForkFailed, c1) == 1,
        process_exit_spec(ForkOutcome::ForkFailed, c1) == process_exit_spec(
            ForkOutcome::ForkFailed,
            c2,
        ),
{
}

} // verus!
