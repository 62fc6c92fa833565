use jj_mcp_server::{
    run_jj_command_sync, ExecutionOutcome, ProcessResult, ResponseContent, ToolResponse,
};

fn exited(success: bool, stdout: &[u8], stderr: &[u8]) -> ProcessResult {
    ProcessResult::Exited { success, stdout: stdout.to_vec(), stderr: stderr.to_vec() }
}

fn only_text(response: &ToolResponse) -> &str {
    assert_eq!(response.content.len(), 1);
    let ResponseContent::Text { text } = &response.content[0];
    text
}

#[test]
fn zero_exit_gives_trimmed_standard_output() {
    let outcome = ExecutionOutcome::from_process(exited(true, b"M file.txt\n", b"warning\n"));
    assert_eq!(outcome, ExecutionOutcome { success: true, text: "M file.txt".to_string() });
}

#[test]
fn zero_exit_with_no_output_is_a_success_with_empty_text() {
    let outcome = ExecutionOutcome::from_process(exited(true, b"", b""));
    assert_eq!(outcome, ExecutionOutcome { success: true, text: String::new() });
    let outcome = ExecutionOutcome::from_process(exited(true, b" \n\t\r\n", b"ignored"));
    assert_eq!(outcome, ExecutionOutcome { success: true, text: String::new() });
}

#[test]
fn nonzero_exit_gives_standard_error_behind_the_prefix() {
    let outcome = ExecutionOutcome::from_process(exited(
        false,
        b"partial output",
        b"\n  Error: No such revision: foo\n\n",
    ));
    assert!(!outcome.success);
    assert!(outcome.text.starts_with("Error: "));
    assert!(outcome.text.contains("No such revision: foo"));
    assert_eq!(outcome.text, "Error: Error: No such revision: foo");
}

#[test]
fn nonzero_exit_with_silent_standard_error() {
    let outcome = ExecutionOutcome::from_process(exited(false, b"out", b""));
    assert_eq!(outcome, ExecutionOutcome { success: false, text: "Error: ".to_string() });
}

#[test]
fn launch_failure_keeps_the_reason_as_given() {
    let reason = " No such file or directory (os error 2)\n";
    let outcome =
        ExecutionOutcome::from_process(ProcessResult::LaunchFailed { reason: reason.to_string() });
    assert!(!outcome.success);
    assert_eq!(outcome.text, format!("Error: {}", reason));
    assert_eq!(ExecutionOutcome::not_launched(reason), outcome);
}

#[test]
fn inner_white_space_stays() {
    let outcome = ExecutionOutcome::succeeded("\n\n  a  b\n c \t\n");
    assert_eq!(outcome.text, "a  b\n c");
    let outcome = ExecutionOutcome::failed("\r\n x \u{3000} y \u{a0}");
    assert_eq!(outcome.text, "Error: x \u{3000} y");
}

#[test]
fn white_space_is_what_unicode_calls_so() {
    let white: Vec<u32> = vec![
        0x09, 0x0A, 0x0B, 0x0C, 0x0D, 0x20, 0x85, 0xA0, 0x1680, 0x2000, 0x2001, 0x2002, 0x2003,
        0x2004, 0x2005, 0x2006, 0x2007, 0x2008, 0x2009, 0x200A, 0x2028, 0x2029, 0x202F, 0x205F,
        0x3000,
    ];
    for code in 0..=0x10FFFFu32 {
        if let Some(c) = char::from_u32(code) {
            let mut s = String::new();
            s.push(c);
            s.push('x');
            s.push(c);
            let outcome = ExecutionOutcome::succeeded(&s);
            if white.contains(&code) {
                assert_eq!(outcome.text, "x", "U+{:04X}", code);
            } else {
                assert_eq!(outcome.text, s, "U+{:04X}", code);
            }
        }
    }
}

#[test]
fn valid_utf8_is_read_as_it_is() {
    let output = "  héllo → 世界 \n";
    let outcome = ExecutionOutcome::from_process(exited(true, output.as_bytes(), b""));
    assert_eq!(outcome.text, "héllo → 世界");
}

#[test]
fn invalid_utf8_is_read_lossily() {
    let outcome = ExecutionOutcome::from_process(exited(true, b"ab\xffcd\n", b""));
    assert_eq!(outcome.text, "ab\u{fffd}cd");
    let outcome = ExecutionOutcome::from_process(exited(false, b"", b"\xf0\x9f\x98 bad\n"));
    assert_eq!(outcome.text, "Error: \u{fffd} bad");
    let outcome = ExecutionOutcome::from_process(exited(false, b"", b"\xc0\x80"));
    assert_eq!(outcome.text, "Error: \u{fffd}\u{fffd}");
}

#[test]
fn unknown_tool_outcome() {
    let outcome = ExecutionOutcome::unknown_tool("frobnicate");
    assert_eq!(
        outcome,
        ExecutionOutcome { success: false, text: "Unknown tool: frobnicate".to_string() }
    );
}

#[test]
fn reply_carries_one_text_and_the_error_flag() {
    let ok = ToolResponse::from_outcome(ExecutionOutcome { success: true, text: "fine".into() });
    assert_eq!(ok.is_error, Some(false));
    assert_eq!(only_text(&ok), "fine");
    let bad = ToolResponse::from_outcome(ExecutionOutcome { success: false, text: "bad".into() });
    assert_eq!(bad.is_error, Some(true));
    assert_eq!(only_text(&bad), "bad");
}

#[test]
fn reply_from_a_run() {
    let reply = ToolResponse::from_process(exited(true, b"M file.txt\n", b""));
    assert_eq!(reply.is_error, Some(false));
    assert_eq!(only_text(&reply), "M file.txt");
    let reply = ToolResponse::from_process(exited(false, b"", b"boom\n"));
    assert_eq!(reply.is_error, Some(true));
    assert_eq!(only_text(&reply), "Error: boom");
    let reply = ToolResponse::from_process(ProcessResult::LaunchFailed { reason: "gone".into() });
    assert_eq!(reply.is_error, Some(true));
    assert_eq!(only_text(&reply), "Error: gone");
}

#[test]
fn test_run_jj_command_sync_invalid_command() {
    // Test with an invalid jj command
    let run = run_jj_command_sync(vec!["invalid-command".to_string()], None);
    assert_eq!(run.program, "jj");
    assert_eq!(run.args, vec!["invalid-command"]);
    assert_eq!(run.cwd, None);
    let result = ExecutionOutcome::from_process(exited(
        false,
        b"",
        b"error: unrecognized subcommand 'invalid-command'\n",
    ));
    assert!(!result.success);
    assert_eq!(result.text, "Error: error: unrecognized subcommand 'invalid-command'");
}

#[test]
fn a_run_keeps_arguments_and_directory() {
    let run = run_jj_command_sync(
        vec!["log".to_string(), "".to_string(), "-n".to_string()],
        Some("/w".to_string()),
    );
    assert_eq!(run.program, "jj");
    assert_eq!(run.args, vec!["log", "", "-n"]);
    assert_eq!(run.cwd, Some("/w".to_string()));
}
