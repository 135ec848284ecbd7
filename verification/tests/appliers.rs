use blop::appliers::{
    keyboard_layout_command, set_keyboard_layout, set_timezone, timezone_command,
};
use blop::error::{Error, ErrorKind, PRIVILEGE_HINT};
use blop::gateway::{FailureReason, Invocation, ProcessOutcome};

fn exited(code: Option<i32>, stdout: &[u8]) -> ProcessOutcome {
    ProcessOutcome::Exited { code, stdout: stdout.to_vec() }
}

#[test]
fn layout_is_handed_to_loadkeys() {
    assert_eq!(
        keyboard_layout_command("us"),
        Invocation { program: "loadkeys".to_string(), args: vec!["us".to_string()] }
    );
}

#[test]
fn timezone_is_handed_to_timedatectl() {
    assert_eq!(
        timezone_command("Europe/Oslo"),
        Invocation {
            program: "timedatectl".to_string(),
            args: vec!["set-timezone".to_string(), "Europe/Oslo".to_string()]
        }
    );
}

#[test]
fn any_value_is_passed_on_as_it_is() {
    assert_eq!(keyboard_layout_command("").args, vec![String::new()]);
    assert_eq!(keyboard_layout_command("no such layout").args, vec!["no such layout".to_string()]);
    assert_eq!(timezone_command("Mars/Olympus").args[1], "Mars/Olympus");
}

#[test]
fn exit_zero_sets_the_layout() {
    assert_eq!(set_keyboard_layout(exited(Some(0), b"")), Ok(()));
}

#[test]
fn setting_the_same_layout_twice_succeeds_twice() {
    let first_command = keyboard_layout_command("us");
    let first = set_keyboard_layout(exited(Some(0), b""));
    let second_command = keyboard_layout_command("us");
    let second = set_keyboard_layout(exited(Some(0), b""));
    assert_eq!(first_command, second_command);
    assert_eq!(first, Ok(()));
    assert_eq!(second, Ok(()));
}

#[test]
fn refused_layout_carries_the_privilege_hint() {
    let error = set_keyboard_layout(exited(Some(1), b"")).unwrap_err();
    assert_eq!(error.kind, ErrorKind::NonZeroExit(Some(1)));
    assert_eq!(error.message, "loadkeys exited with non-zero exit code (are you root?)");
    assert!(error.message.contains(PRIVILEGE_HINT));
}

#[test]
fn missing_loadkeys_is_a_spawn_error() {
    assert_eq!(
        set_keyboard_layout(ProcessOutcome::NotStarted),
        Err(Error { kind: ErrorKind::SpawnError, message: "loadkeys could not be started".to_string() })
    );
}

#[test]
fn output_that_is_not_text_fails_the_layout() {
    assert_eq!(
        set_keyboard_layout(exited(Some(0), &[0xff])),
        Err(Error {
            kind: ErrorKind::OutputParseError,
            message: "loadkeys produced output that is not valid text".to_string()
        })
    );
}

#[test]
fn exit_zero_sets_the_timezone() {
    assert_eq!(set_timezone(exited(Some(0), b"")), Ok(()));
}

#[test]
fn refused_timezone_carries_the_privilege_hint() {
    assert_eq!(
        set_timezone(exited(Some(1), b"")),
        Err(Error {
            kind: ErrorKind::NonZeroExit(Some(1)),
            message: "timedatectl exited with non-zero exit code (are you root?)".to_string()
        })
    );
}

#[test]
fn timezone_tool_killed_without_a_code_fails() {
    let error = set_timezone(exited(None, b"")).unwrap_err();
    assert_eq!(error.kind, ErrorKind::NonZeroExit(None));
    assert!(error.message.contains(PRIVILEGE_HINT));
}

#[test]
fn missing_timedatectl_is_a_spawn_error() {
    assert_eq!(
        set_timezone(ProcessOutcome::NotStarted),
        Err(Error {
            kind: ErrorKind::SpawnError,
            message: "timedatectl could not be started".to_string()
        })
    );
}

#[test]
fn error_from_each_failure_reason() {
    assert_eq!(Error::from_failure("tool", FailureReason::SpawnError).kind, ErrorKind::SpawnError);
    assert_eq!(
        Error::from_failure("tool", FailureReason::NonZeroExit(Some(2))).kind,
        ErrorKind::NonZeroExit(Some(2))
    );
    assert_eq!(
        Error::from_failure("tool", FailureReason::OutputParseError).kind,
        ErrorKind::OutputParseError
    );
    assert_eq!(
        Error::enumeration("cannot read"),
        Error { kind: ErrorKind::EnumerationError, message: "cannot read".to_string() }
    );
}
