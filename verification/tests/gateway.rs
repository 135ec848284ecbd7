use blop::gateway::{command_result, CommandResult, FailureReason, ProcessOutcome};

fn exited(code: Option<i32>, stdout: &[u8]) -> ProcessOutcome {
    ProcessOutcome::Exited { code, stdout: stdout.to_vec() }
}

#[test]
fn exit_zero_with_text_is_success() {
    assert_eq!(
        command_result(exited(Some(0), b"UTC\nEurope/Oslo\n")),
        CommandResult::Success("UTC\nEurope/Oslo\n".to_string())
    );
}

#[test]
fn exit_zero_with_no_output_is_success() {
    assert_eq!(command_result(exited(Some(0), b"")), CommandResult::Success(String::new()));
}

#[test]
fn exit_zero_decodes_utf8() {
    let bytes = [0x5a, 0xc3, 0xbc, 0x72, 0x69, 0x63, 0x68, 0xe6, 0x9d, 0xb1];
    assert_eq!(
        command_result(exited(Some(0), &bytes)),
        CommandResult::Success("Zürich東".to_string())
    );
}

#[test]
fn exit_one_is_non_zero_exit() {
    assert_eq!(
        command_result(exited(Some(1), b"")),
        CommandResult::Failure(FailureReason::NonZeroExit(Some(1)))
    );
}

#[test]
fn non_zero_exit_keeps_its_code() {
    assert_eq!(
        command_result(exited(Some(127), b"out")),
        CommandResult::Failure(FailureReason::NonZeroExit(Some(127)))
    );
    assert_eq!(
        command_result(exited(Some(-1), b"")),
        CommandResult::Failure(FailureReason::NonZeroExit(Some(-1)))
    );
}

#[test]
fn ending_without_a_code_is_non_zero_exit() {
    assert_eq!(
        command_result(exited(None, b"partial")),
        CommandResult::Failure(FailureReason::NonZeroExit(None))
    );
}

#[test]
fn unexecutable_program_is_spawn_error() {
    assert_eq!(
        command_result(ProcessOutcome::NotStarted),
        CommandResult::Failure(FailureReason::SpawnError)
    );
}

#[test]
fn exit_zero_with_invalid_text_is_parse_error() {
    assert_eq!(
        command_result(exited(Some(0), &[0x55, 0xff, 0x54])),
        CommandResult::Failure(FailureReason::OutputParseError)
    );
    assert_eq!(
        command_result(exited(Some(0), &[0xc3])),
        CommandResult::Failure(FailureReason::OutputParseError)
    );
}

#[test]
fn non_zero_exit_comes_before_invalid_text() {
    assert_eq!(
        command_result(exited(Some(1), &[0xff])),
        CommandResult::Failure(FailureReason::NonZeroExit(Some(1)))
    );
}
