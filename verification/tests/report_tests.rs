use stress_harness::cycle::ExecError;
use stress_harness::cycle::Outcome;
use stress_harness::report::Severity;
use stress_harness::report::fixed2_bytes;
use stress_harness::report::join_tokens;
use stress_harness::report::render_outcome;
use stress_harness::report::severity_of;

fn toks(items: &[&[u8]]) -> Vec<Vec<u8>> {
    items.iter().map(|t| t.to_vec()).collect()
}

#[test]
fn severity_tiers() {
    assert_eq!(severity_of(0), Severity::Fast);
    assert_eq!(severity_of(99999), Severity::Fast);
    assert_eq!(severity_of(100000), Severity::Warn);
    assert_eq!(severity_of(199999), Severity::Warn);
    assert_eq!(severity_of(200000), Severity::Fail);
    assert_eq!(severity_of(u64::MAX), Severity::Fail);
}

#[test]
fn fixed2_renders_hundredths() {
    assert_eq!(fixed2_bytes(0), b"0.00".to_vec());
    assert_eq!(fixed2_bytes(99), b"0.99".to_vec());
    assert_eq!(fixed2_bytes(100), b"1.00".to_vec());
    assert_eq!(fixed2_bytes(123), b"1.23".to_vec());
    assert_eq!(fixed2_bytes(5000), b"50.00".to_vec());
    assert_eq!(fixed2_bytes(150000), b"1500.00".to_vec());
    assert_eq!(fixed2_bytes(1000000), b"10000.00".to_vec());
}

#[test]
fn join_inserts_single_spaces() {
    assert_eq!(join_tokens(&toks(&[b"run", b"fast"])), b"run fast".to_vec());
    assert_eq!(join_tokens(&toks(&[b"gen.py"])), b"gen.py".to_vec());
    assert_eq!(join_tokens(&toks(&[])), b"".to_vec());
}

#[test]
fn passed_line_is_green_with_blue_fast_time() {
    let line = render_outcome(&Outcome::Passed { elapsed: 5000 });
    assert_eq!(
        line,
        b"Run: \x1b[92mpassed\x1b[0m (\x1b[94m50.00\x1b[0mms)".to_vec()
    );
}

#[test]
fn passed_line_uses_warn_color_from_one_second() {
    let line = render_outcome(&Outcome::Passed { elapsed: 150000 });
    assert_eq!(
        line,
        b"Run: \x1b[92mpassed\x1b[0m (\x1b[1;33m1500.00\x1b[0mms)".to_vec()
    );
}

#[test]
fn timeout_line_shows_time_against_limit() {
    let line = render_outcome(&Outcome::TimedOut { elapsed: 150000, limit: 100000 });
    assert_eq!(
        line,
        b"Run: \x1b[91mfail\x1b[0m (took \x1b[1;33m1500.00\x1b[0mms>=1000.00ms)".to_vec()
    );
}

#[test]
fn timeout_line_uses_fail_color_from_two_seconds() {
    let line = render_outcome(&Outcome::TimedOut { elapsed: 250000, limit: 100000 });
    assert_eq!(
        line,
        b"Run: \x1b[91mfail\x1b[0m (took \x1b[91m2500.00\x1b[0mms>=1000.00ms)".to_vec()
    );
}

#[test]
fn mismatch_line_shows_expected_and_got() {
    let line = render_outcome(&Outcome::Mismatch {
        expected: b"14".to_vec(),
        got: b"15".to_vec(),
    });
    assert_eq!(
        line,
        b"Run: \x1b[91mfailed\x1b[0m (found the edge case and stored in in.txt. \
[output: expected=\x1b[92m14\x1b[0m, got=\x1b[91m15\x1b[0m])"
            .to_vec()
    );
}

#[test]
fn execution_failed_line_names_command_and_status() {
    let line = render_outcome(&Outcome::ExecutionFailed {
        command: toks(&[b"run", b"fast"]),
        error: ExecError::NonZeroExit { status: 1 },
    });
    assert_eq!(
        line,
        b"Run: \x1b[91mfail\x1b[0m command 'run fast' failed with exit status: 1".to_vec()
    );
}

#[test]
fn execution_failed_line_renders_negative_status() {
    let line = render_outcome(&Outcome::ExecutionFailed {
        command: toks(&[b"gen.py"]),
        error: ExecError::NonZeroExit { status: -3 },
    });
    assert_eq!(
        line,
        b"Run: \x1b[91mfail\x1b[0m command 'gen.py' failed with exit status: -3".to_vec()
    );
}

#[test]
fn execution_failed_line_reports_unreadable_input() {
    let line = render_outcome(&Outcome::ExecutionFailed {
        command: toks(&[b"run", b"fast"]),
        error: ExecError::IoOpen,
    });
    assert_eq!(
        line,
        b"Run: \x1b[91mfail\x1b[0m command 'run fast' failed: the input file could not be opened"
            .to_vec()
    );
}

#[test]
fn execution_failed_line_reports_undecodable_output() {
    let line = render_outcome(&Outcome::ExecutionFailed {
        command: toks(&[b"run", b"fast"]),
        error: ExecError::InvalidOutput,
    });
    assert_eq!(
        line,
        b"Run: \x1b[91mfail\x1b[0m command 'run fast' failed: its output is not valid text"
            .to_vec()
    );
}
