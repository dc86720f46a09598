use ding::args::{interpret, Action, USAGE};
use ding::duration::{elapsed_report, u64_to_string};
use ding::outcome::{child_exit_code, clip_for, process_exit_code, result_code, Clip, ForkOutcome, SpawnOutcome};

fn args_of(parts: &[&str]) -> Vec<String> {
    parts.iter().map(|p| p.to_string()).collect()
}

#[test]
fn no_args_plays_only() {
    assert_eq!(interpret(&args_of(&["ding"])), Action::PlayOnly);
    assert_eq!(interpret(&Vec::new()), Action::PlayOnly);
}

#[test]
fn help_flag_short() {
    assert_eq!(interpret(&args_of(&["ding", "-h"])), Action::ShowHelp);
}

#[test]
fn help_flag_long() {
    assert_eq!(interpret(&args_of(&["ding", "--help"])), Action::ShowHelp);
}

#[test]
fn help_flag_ignores_rest() {
    assert_eq!(interpret(&args_of(&["ding", "-h", "ls", "-l"])), Action::ShowHelp);
    assert_eq!(interpret(&args_of(&["ding", "--help", "whatever"])), Action::ShowHelp);
}

#[test]
fn command_runs() {
    assert_eq!(interpret(&args_of(&["ding", "ls", "-l"])), Action::RunCommand);
    assert_eq!(interpret(&args_of(&["ding", "sleep"])), Action::RunCommand);
}

#[test]
fn help_only_as_first_argument() {
    assert_eq!(interpret(&args_of(&["ding", "ls", "-h"])), Action::RunCommand);
}

#[test]
fn usage_text_mentions_the_command() {
    assert!(USAGE.starts_with("Usage: ding [command]"));
}

#[test]
fn short_runs_report_nothing() {
    assert_eq!(elapsed_report(0), None);
    assert_eq!(elapsed_report(1), None);
    assert_eq!(elapsed_report(5), None);
}

#[test]
fn six_seconds_reports() {
    assert_eq!(elapsed_report(6).unwrap(), "Elapsed: 6s");
}

#[test]
fn minutes_and_seconds() {
    assert_eq!(elapsed_report(65).unwrap(), "Elapsed: 1m5s");
}

#[test]
fn exact_hour_omits_lower_units() {
    assert_eq!(elapsed_report(3600).unwrap(), "Elapsed: 1h");
}

#[test]
fn one_of_each_unit() {
    assert_eq!(elapsed_report(3661).unwrap(), "Elapsed: 1h1m1s");
}

#[test]
fn exact_minute_omits_seconds() {
    assert_eq!(elapsed_report(120).unwrap(), "Elapsed: 2m");
}

#[test]
fn hour_and_seconds_without_minutes() {
    assert_eq!(elapsed_report(3605).unwrap(), "Elapsed: 1h5s");
}

#[test]
fn large_elapsed_time() {
    assert_eq!(elapsed_report(90061).unwrap(), "Elapsed: 25h1m1s");
}

#[test]
fn decimal_rendering() {
    assert_eq!(u64_to_string(0), "0");
    assert_eq!(u64_to_string(9), "9");
    assert_eq!(u64_to_string(10), "10");
    assert_eq!(u64_to_string(305), "305");
    assert_eq!(u64_to_string(u64::MAX), "18446744073709551615");
}

#[test]
fn subprocess_code_propagates() {
    assert_eq!(result_code(&SpawnOutcome::Exited(Some(0))), 0);
    assert_eq!(result_code(&SpawnOutcome::Exited(Some(42))), 42);
}

#[test]
fn signal_termination_counts_as_success() {
    assert_eq!(result_code(&SpawnOutcome::Exited(None)), 0);
}

#[test]
fn spawn_failure_is_one() {
    assert_eq!(result_code(&SpawnOutcome::SpawnFailed), 1);
}

#[test]
fn parent_reports_the_result_code() {
    assert_eq!(process_exit_code(&ForkOutcome::InParent, 0), 0);
    assert_eq!(process_exit_code(&ForkOutcome::InParent, 42), 42);
}

#[test]
fn child_always_exits_zero() {
    assert_eq!(process_exit_code(&ForkOutcome::InChild, 42), 0);
    assert_eq!(child_exit_code(true), 0);
    assert_eq!(child_exit_code(false), 0);
}

#[test]
fn fork_failure_overrides_any_code() {
    assert_eq!(process_exit_code(&ForkOutcome::ForkFailed, 0), 1);
    assert_eq!(process_exit_code(&ForkOutcome::ForkFailed, 42), 1);
}

#[test]
fn clip_choice() {
    assert_eq!(clip_for(0), Clip::Success);
    assert_eq!(clip_for(1), Clip::Failure);
    assert_eq!(clip_for(-13), Clip::Failure);
}
