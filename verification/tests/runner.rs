use aws_why::commands::run_exit_code;
use aws_why::runner::{
    after_look, command_run, diagnostic_environment, diagnostic_output, failure_exit_code,
    normalized_exit_code, pump, Capture, PollStep, PumpResult, SpoolLimit,
};

fn captured(bytes: &[u8], capture_truncated: bool) -> PumpResult {
    PumpResult {
        captured: bytes.to_vec(),
        capture_truncated,
    }
}

#[test]
fn capture_keeps_only_the_bounded_tail() {
    let input = b"0123456789";
    let mut capture = Capture::new(4);
    pump(&mut capture, &input[..]);
    let result = capture.finish();
    assert_eq!(result.captured, b"6789");
    assert!(result.capture_truncated);
}

#[test]
fn capture_does_not_depend_on_the_pieces() {
    let mut capture = Capture::new(4);
    for piece in [&b"01"[..], &b"2345678"[..], &b""[..], &b"9"[..]] {
        pump(&mut capture, piece);
    }
    let result = capture.finish();
    assert_eq!(result.captured, b"6789");
    assert!(result.capture_truncated);
}

#[test]
fn capture_that_fits_is_whole() {
    let mut capture = Capture::new(4);
    pump(&mut capture, b"0123");
    let result = capture.finish();
    assert_eq!(result.captured, b"0123");
    assert!(!result.capture_truncated);
}

#[test]
fn capture_of_nothing_is_not_truncated() {
    let mut capture = Capture::new(0);
    pump(&mut capture, b"0123");
    let result = capture.finish();
    assert!(result.captured.is_empty());
    assert!(!result.capture_truncated);
}

#[test]
fn spools_take_what_fits() {
    let mut limit = SpoolLimit {
        remaining: 5,
        truncated: false,
    };
    assert_eq!(limit.accept(3), 3);
    assert!(!limit.truncated);
    assert_eq!(limit.accept(2), 2);
    assert!(!limit.truncated);
    assert_eq!(limit.accept(1), 0);
    assert!(limit.truncated);
    assert_eq!(limit.accept(0), 0);
    assert_eq!(limit.remaining, 0);
}

#[test]
fn exit_codes_of_signals_follow_the_shell() {
    assert_eq!(normalized_exit_code(Some(7), None), 7);
    assert_eq!(normalized_exit_code(Some(0), Some(9)), 0);
    assert_eq!(normalized_exit_code(None, Some(9)), 137);
    assert_eq!(normalized_exit_code(None, None), 128);
}

#[test]
fn failures_keep_their_exit_code_as_far_as_it_fits() {
    assert_eq!(failure_exit_code(254), 254);
    assert_eq!(failure_exit_code(0), 1);
    assert_eq!(failure_exit_code(-3), 1);
    assert_eq!(failure_exit_code(256), 255);
    assert_eq!(failure_exit_code(1), 1);
}

#[test]
fn runs_tell_what_was_dropped() {
    let run = command_run(
        vec!["aws".to_owned()],
        3,
        captured(b"", false),
        captured(b"err", true),
        true,
        false,
    );
    assert_eq!(run.argv, ["aws"]);
    assert_eq!(run.exit_code, 3);
    assert_eq!(run.stderr, b"err");
    assert!(run.stdout_truncated);
    assert!(run.stderr_truncated);
    assert!(!run.stderr_replay_truncated);
}

#[test]
fn diagnostic_output_is_truncated_where_either_stream_is() {
    let output = diagnostic_output(true, captured(b"out", false), captured(b"err", true));
    assert!(output.success && output.truncated);
    assert_eq!(output.stdout, b"out");
    assert_eq!(output.stderr, b"err");
    assert!(!diagnostic_output(false, captured(b"", false), captured(b"", false)).truncated);
}

#[test]
fn diagnostic_calls_use_the_endpoints_of_aws() {
    let environment = diagnostic_environment();
    assert!(environment.contains(&(
        "AWS_IGNORE_CONFIGURED_ENDPOINT_URLS".to_owned(),
        "true".to_owned()
    )));
    assert!(environment.contains(&("AWS_CLI_ERROR_FORMAT".to_owned(), "json".to_owned())));
    assert_eq!(environment.len(), 4);
}

#[test]
fn run_returns_the_exit_code_of_the_command() {
    assert_eq!(run_exit_code(0), 0);
    assert_eq!(run_exit_code(1), 1);
    assert_eq!(run_exit_code(254), 254);
    assert_eq!(run_exit_code(255), 255);
    assert_eq!(run_exit_code(256), 255);
    assert_eq!(run_exit_code(-1), 1);
}

#[test]
fn diagnostic_calls_are_waited_for_no_longer_than_their_time() {
    assert_eq!(after_look(false, 49, 50), PollStep::LookAgain);
    assert_eq!(after_look(false, 50, 50), PollStep::GiveUp);
    assert_eq!(after_look(false, 0, 0), PollStep::GiveUp);
    assert_eq!(after_look(true, 60, 50), PollStep::Collect);
}
