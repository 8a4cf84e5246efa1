use stress_harness::cycle::Config;
use stress_harness::cycle::CycleState;
use stress_harness::cycle::ExecError;
use stress_harness::cycle::ExecEvent;
use stress_harness::cycle::Outcome;
use stress_harness::cycle::initial_state;
use stress_harness::cycle::into_outcome;
use stress_harness::cycle::next_command;
use stress_harness::cycle::should_continue;
use stress_harness::cycle::step;

fn toks(items: &[&[u8]]) -> Vec<Vec<u8>> {
    items.iter().map(|t| t.to_vec()).collect()
}

fn config(without_lazy: bool, max_time: Option<u64>) -> Config {
    Config {
        name: b"fast".to_vec(),
        gen_cmd: b"gen.py".to_vec(),
        run_cmd: b"run {argv0}".to_vec(),
        lazy_cmd: None,
        without_lazy,
        max_time,
    }
}

fn completed(output: &[u8], elapsed: u64) -> ExecEvent {
    ExecEvent::Completed { output: output.to_vec(), elapsed }
}

const GENERATED: &[u8] = b"5\n3 1 4 1 5\n";

#[test]
fn cycle_commands_in_order() {
    let c = config(false, Some(100000));
    let s = initial_state();
    assert_eq!(next_command(&c, &s), Some(toks(&[b"gen.py"])));
    let s = step(&c, s, completed(GENERATED, 100));
    assert_eq!(next_command(&c, &s), Some(toks(&[b"run", b"fast"])));
    let s = step(&c, s, completed(b"14", 5000));
    assert_eq!(next_command(&c, &s), Some(toks(&[b"run", b"fast_lazy"])));
    let s = step(&c, s, completed(b"14", 60000));
    assert_eq!(next_command(&c, &s), None);
}

#[test]
fn agreeing_outputs_within_budget_pass() {
    let c = config(false, Some(100000));
    let mut s = initial_state();
    s = step(&c, s, completed(GENERATED, 100));
    s = step(&c, s, completed(b"14", 5000));
    s = step(&c, s, completed(b"14", 60000));
    let o = into_outcome(s).unwrap();
    assert!(matches!(o, Outcome::Passed { elapsed: 5000 }));
    assert!(should_continue(&o));
}

#[test]
fn differing_outputs_mismatch() {
    let c = config(false, Some(100000));
    let mut s = initial_state();
    s = step(&c, s, completed(GENERATED, 100));
    s = step(&c, s, completed(b"15", 5000));
    s = step(&c, s, completed(b"14", 60000));
    assert_eq!(next_command(&c, &s), None);
    let o = into_outcome(s).unwrap();
    match o {
        Outcome::Mismatch { ref expected, ref got } => {
            assert_eq!(expected, &b"14".to_vec());
            assert_eq!(got, &b"15".to_vec());
        },
        _ => panic!("expected a mismatch"),
    }
    assert!(!should_continue(&o));
}

#[test]
fn mismatch_compares_trimmed_outputs() {
    let c = config(false, None);
    let mut s = initial_state();
    s = step(&c, s, completed(GENERATED, 100));
    s = step(&c, s, completed(b"14\n", 5000));
    s = step(&c, s, completed(b"14", 60000));
    assert!(matches!(into_outcome(s).unwrap(), Outcome::Passed { elapsed: 5000 }));
}

#[test]
fn candidate_failure_stops_before_reference() {
    let c = config(false, Some(100000));
    let mut s = initial_state();
    s = step(&c, s, completed(GENERATED, 100));
    s = step(&c, s, ExecEvent::Failed { error: ExecError::NonZeroExit { status: 1 } });
    assert_eq!(next_command(&c, &s), None);
    match into_outcome(s).unwrap() {
        Outcome::ExecutionFailed { command, error } => {
            assert_eq!(command, toks(&[b"run", b"fast"]));
            assert!(matches!(error, ExecError::NonZeroExit { status: 1 }));
        },
        _ => panic!("expected an execution failure"),
    }
}

#[test]
fn slow_candidate_times_out_before_reference() {
    let c = config(false, Some(100000));
    let mut s = initial_state();
    s = step(&c, s, completed(GENERATED, 100));
    s = step(&c, s, completed(b"14", 150000));
    assert_eq!(next_command(&c, &s), None);
    match into_outcome(s).unwrap() {
        Outcome::TimedOut { elapsed, limit } => {
            assert_eq!(elapsed, 150000);
            assert_eq!(limit, 100000);
        },
        _ => panic!("expected a timeout"),
    }
}

#[test]
fn timeout_is_reported_even_when_outputs_would_match() {
    let c = config(false, Some(100000));
    let mut s = initial_state();
    s = step(&c, s, completed(GENERATED, 100));
    s = step(&c, s, completed(b"14", 100000));
    assert!(matches!(
        into_outcome(s).unwrap(),
        Outcome::TimedOut { elapsed: 100000, limit: 100000 }
    ));
}

#[test]
fn unbounded_budget_never_times_out() {
    let c = config(true, None);
    let mut s = initial_state();
    s = step(&c, s, completed(GENERATED, 100));
    s = step(&c, s, completed(b"14", u64::MAX));
    assert!(matches!(into_outcome(s).unwrap(), Outcome::Passed { elapsed: u64::MAX }));
}

#[test]
fn without_lazy_passes_on_candidate_alone() {
    let c = config(true, Some(100000));
    let mut s = initial_state();
    s = step(&c, s, completed(GENERATED, 100));
    s = step(&c, s, completed(b"whatever", 5000));
    let o = into_outcome(s).unwrap();
    assert!(matches!(o, Outcome::Passed { elapsed: 5000 }));
    assert!(should_continue(&o));
}

#[test]
fn without_lazy_never_asks_for_reference() {
    let c = config(true, Some(100000));
    let mut s = initial_state();
    s = step(&c, s, completed(GENERATED, 100));
    assert_eq!(next_command(&c, &s), Some(toks(&[b"run", b"fast"])));
    s = step(&c, s, completed(b"14", 5000));
    assert_eq!(next_command(&c, &s), None);
}

#[test]
fn generator_failure_stops_the_run() {
    let c = config(false, Some(100000));
    let s = initial_state();
    let s = step(&c, s, ExecEvent::Failed { error: ExecError::NonZeroExit { status: 2 } });
    match into_outcome(s).unwrap() {
        Outcome::ExecutionFailed { command, error } => {
            assert_eq!(command, toks(&[b"gen.py"]));
            assert!(matches!(error, ExecError::NonZeroExit { status: 2 }));
        },
        _ => panic!("expected an execution failure"),
    }
}

#[test]
fn reference_failure_stops_the_run() {
    let c = config(false, None);
    let mut s = initial_state();
    s = step(&c, s, completed(GENERATED, 100));
    s = step(&c, s, completed(b"14", 5000));
    s = step(&c, s, ExecEvent::Failed { error: ExecError::IoOpen });
    match into_outcome(s).unwrap() {
        Outcome::ExecutionFailed { command, error } => {
            assert_eq!(command, toks(&[b"run", b"fast_lazy"]));
            assert!(matches!(error, ExecError::IoOpen));
        },
        _ => panic!("expected an execution failure"),
    }
}

#[test]
fn invalid_output_stops_the_run() {
    let c = config(true, None);
    let mut s = initial_state();
    s = step(&c, s, completed(GENERATED, 100));
    s = step(&c, s, ExecEvent::Failed { error: ExecError::InvalidOutput });
    match into_outcome(s).unwrap() {
        Outcome::ExecutionFailed { command, error } => {
            assert_eq!(command, toks(&[b"run", b"fast"]));
            assert!(matches!(error, ExecError::InvalidOutput));
        },
        _ => panic!("expected an execution failure"),
    }
}

#[test]
fn explicit_reference_template_overrides_suffix() {
    let c = Config {
        name: b"fast".to_vec(),
        gen_cmd: b"gen.py".to_vec(),
        run_cmd: b"run {argv0}".to_vec(),
        lazy_cmd: Some(b"python3 {argv0}.py".to_vec()),
        without_lazy: false,
        max_time: None,
    };
    let mut s = initial_state();
    s = step(&c, s, completed(GENERATED, 100));
    s = step(&c, s, completed(b"14", 5000));
    assert_eq!(next_command(&c, &s), Some(toks(&[b"python3", b"fast.py"])));
}

#[test]
fn generator_output_is_ignored() {
    let c = config(true, None);
    let mut s = initial_state();
    s = step(&c, s, completed(b"any noise at all", 999999));
    assert_eq!(next_command(&c, &s), Some(toks(&[b"run", b"fast"])));
    s = step(&c, s, completed(b"x", 1));
    assert!(matches!(into_outcome(s).unwrap(), Outcome::Passed { elapsed: 1 }));
}

#[test]
fn undecided_cycle_has_no_outcome() {
    let c = config(false, None);
    let s = initial_state();
    assert!(into_outcome(s).is_none());
    let s = step(&c, initial_state(), completed(GENERATED, 100));
    assert!(into_outcome(s).is_none());
}

#[test]
fn decided_cycle_does_not_move() {
    let c = config(true, None);
    let mut s = initial_state();
    s = step(&c, s, completed(GENERATED, 100));
    s = step(&c, s, completed(b"14", 5000));
    s = step(&c, s, ExecEvent::Failed { error: ExecError::IoOpen });
    assert!(matches!(into_outcome(s).unwrap(), Outcome::Passed { elapsed: 5000 }));
}

#[test]
fn candidate_state_is_not_skipped_on_generator_success() {
    let c = config(false, Some(100000));
    let s = step(&c, initial_state(), completed(b"", 0));
    assert!(matches!(s, CycleState::AwaitCandidate));
}
