//! Spawn planning, output decoding and exit-status mapping scenarios.

use testutils::os_cmd::process::{empty_command_err, finish_run, CommandSpawner, ProcessError, StdioMode};
use testutils::os_cmd::InspectMode;
use testutils::os_cmd::{CommandRepr, DecodedText, Runner};

#[test]
fn empty_command_never_plans_a_spawn() {
    let plan = CommandSpawner::default().with_command(Some(vec![])).spawn_plan();
    assert!(matches!(plan, Err(ProcessError::EmptyCommand)));

    let plan = CommandSpawner::default().spawn_plan();
    assert!(matches!(plan, Err(ProcessError::EmptyCommand)));

    let prep = Runner::default().with_command(CommandRepr::Raw("")).prepare();
    assert!(matches!(prep, Err(ProcessError::EmptyCommand)));

    let prep = Runner::default().with_command(CommandRepr::Raw("   ")).prepare();
    assert!(matches!(prep, Err(ProcessError::EmptyCommand)));
}

#[test]
fn stdin_data_forces_piped_stdin() {
    let plan = CommandSpawner::default()
        .with_command(Some(vec!["cat".to_string()]))
        .with_stdin_data(Some(b"hello".to_vec()))
        .spawn_plan()
        .unwrap();
    assert_eq!(plan.stdin, StdioMode::Piped);
    assert_eq!(plan.stdout, StdioMode::Inherit);
    assert_eq!(plan.stderr, StdioMode::Inherit);
    assert_eq!(plan.stdin_data.as_deref(), Some(&b"hello"[..]));
}

#[test]
fn capture_forces_piped_streams() {
    let spawner = CommandSpawner::default().with_command(Some(vec![
        "cargo".to_string(),
        "fmt".to_string(),
    ]));
    let plan = spawner.clone().capture_plan(true, false).unwrap();
    assert_eq!(plan.stdout, StdioMode::Piped);
    assert_eq!(plan.stderr, StdioMode::Inherit);
    assert_eq!(plan.program, "cargo");
    assert_eq!(plan.args, ["fmt"]);

    let plan = spawner.capture_plan(true, true).unwrap();
    assert_eq!(plan.stdout, StdioMode::Piped);
    assert_eq!(plan.stderr, StdioMode::Piped);
}

#[test]
fn capture_keeps_output_of_failing_command() {
    // A capturing run decodes whatever came out, whatever the exit status;
    // only a plain run maps a non-success status to an error.
    let captured = DecodedText::from_bytes(b"error output");
    assert!(!captured.lossy);
    assert_eq!(captured.data(), "error output");

    assert!(finish_run(true, "cargo").is_ok());
    let failed = finish_run(false, "cargo");
    match failed {
        Err(ProcessError::CommandFailed(msg)) => {
            assert_eq!(msg, "Failed to run command: cargo");
        },
        _ => panic!("a non-success status must map to CommandFailed"),
    }
}

#[test]
fn runner_prepare_hands_back_plan_and_inspect_mode() {
    let (inspect, plan) = Runner::default()
        .with_command(CommandRepr::Raw("cargo +nightly fmt"))
        .prepare()
        .unwrap();
    assert_eq!(inspect, InspectMode::Stderr);
    assert_eq!(plan.program, "cargo");
    assert_eq!(plan.args, ["+nightly", "fmt"]);
    assert_eq!(plan.stdin, StdioMode::Inherit);
}

#[test]
fn presplit_passes_through_untouched() {
    let tokens = vec!["// not a comment".to_string(), "a b".to_string()];
    let argv = Runner::default()
        .with_command(CommandRepr::OwnedSlice(tokens.clone()))
        .with_remove_comments(true)
        .into_argv();
    assert_eq!(argv, tokens);

    let argv = Runner::default()
        .with_command(CommandRepr::Slice(vec!["// x", "y"]))
        .with_remove_comments(false)
        .into_argv();
    assert_eq!(argv, ["// x", "y"]);
}

#[test]
fn empty_command_err_value() {
    assert!(matches!(empty_command_err(), ProcessError::EmptyCommand));
}
