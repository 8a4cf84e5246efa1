//! The per-cycle verification state machine.
//!
//! One cycle runs the generator (which rewrites the shared input file), then
//! the candidate, then — unless disabled — the reference, and decides an
//! outcome.  The machine is driven from outside: the driver asks
//! [`next_command`] which program to run, runs it, and hands the result back
//! through [`step`].  All times are wall-clock durations in hundredths of a
//! millisecond, so that the two-decimal millisecond readings the harness
//! works with are exact integers.

use vstd::prelude::*;
use crate::text::trim_spec;
use crate::text::trim_trailing;
use crate::text::bytes_equal;
use crate::command::command_spec;
use crate::command::tokens_spec;
use crate::command::lazy_suffix;
use crate::command::build_command;
use crate::command::tokenize;
use crate::command::with_lazy_suffix;

verus! {

/// The configuration of a whole run, fixed before the first cycle.
pub struct Config {
    /// Logical name of the candidate program, substituted for the
    /// placeholder in the run template.
    pub name: Vec<u8>,
    /// Command template that (re)writes the input file; used verbatim.
    pub gen_cmd: Vec<u8>,
    /// Command template for the candidate, holding the placeholder.
    pub run_cmd: Vec<u8>,
    /// Explicit reference template, if configured; otherwise the reference
    /// command is the run template with the suffixed name substituted.
    pub lazy_cmd: Option<Vec<u8>>,
    /// When set, the reference is never run and a cycle passes once the
    /// candidate completes within budget.
    pub without_lazy: bool,
    /// Time budget for the candidate in hundredths of a millisecond;
    /// `None` means unbounded.
    pub max_time: Option<u64>,
}

/// The mathematical content of a [`Config`].
#[verifier::ext_equal]
pub ghost struct ConfigModel {
    pub name: Seq<u8>,
    pub gen_cmd: Seq<u8>,
    pub run_cmd: Seq<u8>,
    pub lazy_cmd: Option<Seq<u8>>,
    pub without_lazy: bool,
    pub max_time: Option<u64>,
}

impl View for Config {
    type V = ConfigModel;

    open spec fn view(&self) -> ConfigModel {
        ConfigModel {
            name: self.name@,
            gen_cmd: self.gen_cmd@,
            run_cmd: self.run_cmd@,
            lazy_cmd: self.lazy_cmd.deep_view(),
            without_lazy: self.without_lazy,
            max_time: self.max_time,
        }
    }
}

/// Why a single program run failed to produce usable output.
#[derive(Clone, Copy, PartialEq, Eq, Structural, Debug)]
pub enum ExecError {
    /// The input file could not be opened for the program's standard input.
    IoOpen,
    /// The program exited with the given non-success status.
    NonZeroExit { status: i64 },
    /// The captured output bytes were not valid text.
    InvalidOutput,
}

/// What the driver hands back after running one program.
pub enum ExecEvent {
    /// The program succeeded; `output` is its captured standard output and
    /// `elapsed` its wall-clock duration in hundredths of a millisecond.
    Completed { output: Vec<u8>, elapsed: u64 },
    /// The run failed before usable output was obtained.
    Failed { error: ExecError },
}

/// The mathematical content of an [`ExecEvent`].
#[verifier::ext_equal]
pub ghost enum EventModel {
    Completed { output: Seq<u8>, elapsed: u64 },
    Failed { error: ExecError },
}

impl View for ExecEvent {
    type V = EventModel;

    open spec fn view(&self) -> EventModel {
        match self {
            ExecEvent::Completed { output, elapsed } => EventModel::Completed {
                output: output@,
                elapsed: *elapsed,
            },
            ExecEvent::Failed { error } => EventModel::Failed { error: *error },
        }
    }
}

/// The terminal outcome of one cycle.
pub enum Outcome {
    /// Candidate and reference agreed (or the reference was disabled) and
    /// the candidate finished within budget, in `elapsed` hundredths of a
    /// millisecond.
    Passed { elapsed: u64 },
    /// The candidate took `elapsed` hundredths of a millisecond, at or over
    /// the configured `limit`.
    TimedOut { elapsed: u64, limit: u64 },
    /// Trimmed outputs differed: the reference said `expected`, the
    /// candidate said `got`.
    Mismatch { expected: Vec<u8>, got: Vec<u8> },
    /// A program run failed; `command` is the tokens of the offending
    /// command.
    ExecutionFailed { command: Vec<Vec<u8>>, error: ExecError },
}

/// The mathematical content of an [`Outcome`].
#[verifier::ext_equal]
pub ghost enum OutcomeModel {
    Passed { elapsed: u64 },
    TimedOut { elapsed: u64, limit: u64 },
    Mismatch { expected: Seq<u8>, got: Seq<u8> },
    ExecutionFailed { command: Seq<Seq<u8>>, error: ExecError },
}

impl View for Outcome {
    type V = OutcomeModel;

    open spec fn view(&self) -> OutcomeModel {
        match self {
            Outcome::Passed { elapsed } => OutcomeModel::Passed { elapsed: *elapsed },
            Outcome::TimedOut { elapsed, limit } => OutcomeModel::TimedOut {
                elapsed: *elapsed,
                limit: *limit,
            },
            Outcome::Mismatch { expected, got } => OutcomeModel::Mismatch {
                expected: expected@,
                got: got@,
            },
            Outcome::ExecutionFailed { command, error } => OutcomeModel::ExecutionFailed {
                command: command.deep_view(),
                error: *error,
            },
        }
    }
}

/// Where a cycle stands: which program is to be run next, or the outcome.
pub enum CycleState {
    /// The generator must be run to (re)write the input file.
    AwaitGenerator,
    /// The candidate must be run against the freshly written input.
    AwaitCandidate,
    /// The reference must be run; the candidate's trimmed output and
    /// elapsed time are carried along for the comparison.
    AwaitReference { candidate_output: Vec<u8>, candidate_elapsed: u64 },
    /// The cycle is decided.
    Done { outcome: Outcome },
}

/// The mathematical content of a [`CycleState`].
#[verifier::ext_equal]
pub ghost enum StateModel {
    AwaitGenerator,
    AwaitCandidate,
    AwaitReference { candidate_output: Seq<u8>, candidate_elapsed: u64 },
    Done { outcome: OutcomeModel },
}

impl View for CycleState {
    type V = StateModel;

    open spec fn view(&self) -> StateModel {
        match self {
            CycleState::AwaitGenerator => StateModel::AwaitGenerator,
            CycleState::AwaitCandidate => StateModel::AwaitCandidate,
            CycleState::AwaitReference { candidate_output, candidate_elapsed } => {
                StateModel::AwaitReference {
                    candidate_output: candidate_output@,
                    candidate_elapsed: *candidate_elapsed,
                }
            },
            CycleState::Done { outcome } => StateModel::Done { outcome: outcome@ },
        }
    }
}

/// The generator's command tokens: its template, used verbatim.
pub open spec fn generator_command(c: ConfigModel) -> Seq<Seq<u8>> {
    tokens_spec(c.gen_cmd)
}

/// The candidate's command tokens: the run template with the candidate's
/// name substituted for the placeholder.
pub open spec fn candidate_command(c: ConfigModel) -> Seq<Seq<u8>> {
    command_spec(c.run_cmd, c.name)
}

/// The reference's command tokens: the explicit reference template if one is
/// configured, otherwise the run template with the suffixed candidate name.
pub open spec fn reference_command(c: ConfigModel) -> Seq<Seq<u8>> {
    match c.lazy_cmd {
        Some(t) => command_spec(t, c.name),
        None => command_spec(c.run_cmd, c.name + lazy_suffix()),
    }
}

/// Whether an elapsed time meets or exceeds the configured budget.
pub open spec fn over_budget(c: ConfigModel, elapsed: u64) -> bool {
    match c.max_time {
        Some(limit) => elapsed >= limit,
        None => false,
    }
}

/// The command the driver must run in a state, or `None` once the cycle is
/// decided.
pub open spec fn next_command_spec(c: ConfigModel, s: StateModel) -> Option<Seq<Seq<u8>>> {
    match s {
        StateModel::AwaitGenerator => Some(generator_command(c)),
        StateModel::AwaitCandidate => Some(candidate_command(c)),
        StateModel::AwaitReference { .. } => Some(reference_command(c)),
        StateModel::Done { .. } => None,
    }
}

/// How one program's result advances the cycle.
///
/// The generator's output is ignored; only its success matters.  A failed
/// run ends the cycle with `ExecutionFailed` naming the command that was
/// running.  The candidate's time budget is enforced before the reference is
/// consulted, so a slow candidate times out even when its output is right.
/// With the reference disabled, a candidate that completes within budget
/// passes outright.  Otherwise the trimmed outputs are compared and the
/// cycle ends `Passed` or `Mismatch`.  A decided cycle no longer moves.
pub open spec fn step_spec(c: ConfigModel, s: StateModel, e: EventModel) -> StateModel {
    match s {
        StateModel::AwaitGenerator => match e {
            EventModel::Completed { .. } => StateModel::AwaitCandidate,
            EventModel::Failed { error } => StateModel::Done {
                outcome: OutcomeModel::ExecutionFailed { command: generator_command(c), error },
            },
        },
        StateModel::AwaitCandidate => match e {
            EventModel::Completed { output, elapsed } => {
                if over_budget(c, elapsed) {
                    StateModel::Done {
                        outcome: OutcomeModel::TimedOut {
                            elapsed,
                            limit: c.max_time.unwrap(),
                        },
                    }
                } else if c.without_lazy {
                    StateModel::Done { outcome: OutcomeModel::Passed { elapsed } }
                } else {
                    StateModel::AwaitReference {
                        candidate_output: trim_spec(output),
                        candidate_elapsed: elapsed,
                    }
                }
            },
            EventModel::Failed { error } => StateModel::Done {
                outcome: OutcomeModel::ExecutionFailed { command: candidate_command(c), error },
            },
        },
        StateModel::AwaitReference { candidate_output, candidate_elapsed } => match e {
            EventModel::Completed { output, .. } => {
                if trim_spec(output) == candidate_output {
                    StateModel::Done {
                        outcome: OutcomeModel::Passed { elapsed: candidate_elapsed },
                    }
                } else {
                    StateModel::Done {
                        outcome: OutcomeModel::Mismatch {
                            expected: trim_spec(output),
                            got: candidate_output,
                        },
                    }
                }
            },
            EventModel::Failed { error } => StateModel::Done {
                outcome: OutcomeModel::ExecutionFailed { command: reference_command(c), error },
            },
        },
        StateModel::Done { .. } => s,
    }
}

/// The state every cycle starts in.
pub fn initial_state() -> (r: CycleState)
    ensures
        r@ == StateModel::AwaitGenerator,
{
    CycleState::AwaitGenerator
}

/// Builds the generator's command tokens.
pub fn generator_command_of(c: &Config) -> (r: Vec<Vec<u8>>)
    ensures
        r.deep_view() == generator_command(c@),
{
    tokenize(&c.gen_cmd)
}

/// Builds the candidate's command tokens.
pub fn candidate_command_of(c: &Config) -> (r: Vec<Vec<u8>>)
    ensures
        r.deep_view() == candidate_command(c@),
{
    build_command(&c.run_cmd, &c.name)
}

/// Builds the reference's command tokens.
pub fn reference_command_of(c: &Config) -> (r: Vec<Vec<u8>>)
    ensures
        r.deep_view() == reference_command(c@),
{
    match &c.lazy_cmd {
        Some(template) => {
            proof {
                assert(template.deep_view() =~= template@);
            }
            build_command(template, &c.name)
        },
        None => {
            let suffixed = with_lazy_suffix(&c.name);
            build_command(&c.run_cmd, &suffixed)
        },
    }
}

/// The command to run next, or `None` once the cycle is decided.
pub fn next_command(c: &Config, s: &CycleState) -> (r: Option<Vec<Vec<u8>>>)
    ensures
        r.deep_view() == next_command_spec(c@, s@),
{
    match s {
        CycleState::AwaitGenerator => Some(generator_command_of(c)),
        CycleState::AwaitCandidate => Some(candidate_command_of(c)),
        CycleState::AwaitReference { .. } => Some(reference_command_of(c)),
        CycleState::Done { .. } => None,
    }
}

/// Whether an elapsed time meets or exceeds the configured budget.
pub fn budget_exceeded(c: &Config, elapsed: u64) -> (r: bool)
    ensures
        r == over_budget(c@, elapsed),
{
    match &c.max_time {
        Some(limit) => elapsed >= *limit,
        None => false,
    }
}

/// Advances the cycle by one program's result.
pub fn step(c: &Config, state: CycleState, event: ExecEvent) -> (r: CycleState)
    ensures
        r@ == step_spec(c@, state@, event@),
{
    match state {
        CycleState::AwaitGenerator => match event {
            ExecEvent::Completed { .. } => CycleState::AwaitCandidate,
            ExecEvent::Failed { error } => CycleState::Done {
                outcome: Outcome::ExecutionFailed { command: generator_command_of(c), error },
            },
        },
        CycleState::AwaitCandidate => match event {
            ExecEvent::Completed { output, elapsed } => {
                if budget_exceeded(c, elapsed) {
                    let limit = match &c.max_time {
                        Some(limit) => *limit,
                        None => 0,
                    };
                    CycleState::Done { outcome: Outcome::TimedOut { elapsed, limit } }
                } else if c.without_lazy {
                    CycleState::Done { outcome: Outcome::Passed { elapsed } }
                } else {
                    let trimmed = trim_trailing(&output);
                    CycleState::AwaitReference {
                        candidate_output: trimmed,
                        candidate_elapsed: elapsed,
                    }
                }
            },
            ExecEvent::Failed { error } => CycleState::Done {
                outcome: Outcome::ExecutionFailed { command: candidate_command_of(c), error },
            },
        },
        CycleState::AwaitReference { candidate_output, candidate_elapsed } => match event {
            ExecEvent::Completed { output, .. } => {
                let ref_trimmed = trim_trailing(&output);
                if bytes_equal(&ref_trimmed, &candidate_output) {
                    CycleState::Done {
                        outcome: Outcome::Passed { elapsed: candidate_elapsed },
                    }
                } else {
                    CycleState::Done {
                        outcome: Outcome::Mismatch {
                            expected: ref_trimmed,
                            got: candidate_output,
                        },
                    }
                }
            },
            ExecEvent::Failed { error } => CycleState::Done {
                outcome: Outcome::ExecutionFailed { command: reference_command_of(c), error },
            },
        },
        CycleState::Done { outcome } => CycleState::Done { outcome },
    }
}

/// Whether the run goes on to another cycle: only a passed cycle does.
pub fn should_continue(o: &Outcome) -> (r: bool)
    ensures
        r == (o@ is Passed),
{
    match o {
        Outcome::Passed { .. } => true,
        _ => false,
    }
}

/// When candidate and reference produce identical trimmed text and the
/// candidate's elapsed time is below budget, the cycle passes, reporting the
/// candidate's own elapsed time.
pub proof fn lemma_agreeing_cycle_passes(
    c: ConfigModel,
    gen_event: EventModel,
    cand_out: Seq<u8>,
    cand_elapsed: u64,
    ref_out: Seq<u8>,
    ref_elapsed: u64,
)
    requires
        !c.without_lazy,
        gen_event is Completed,
        !over_budget(c, cand_elapsed),
        trim_spec(cand_out) == trim_spec(ref_out),
    ensures
        ({
            let s1 = step_spec(c, StateModel::AwaitGenerator, gen_event);
            let s2 = step_spec(
                c,
                s1,
                EventModel::Completed { output: cand_out, elapsed: cand_elapsed },
            );
            let s3 = step_spec(
                c,
                s2,
                EventModel::Completed { output: ref_out, elapsed: ref_elapsed },
            );
            s3 == StateModel::Done { outcome: OutcomeModel::Passed { elapsed: cand_elapsed } }
        }),
{
}

/// When the trimmed outputs differ (and the candidate was within budget),
/// the cycle ends in `Mismatch` carrying the reference's trimmed output as
/// `expected` and the candidate's as `got`; and the decided cycle asks for
/// no further command, so the input file that produced the divergence is
/// never overwritten by another generator run.
pub proof fn lemma_mismatch_ends_run(
    c: ConfigModel,
    gen_event: EventModel,
    cand_out: Seq<u8>,
    cand_elapsed: u64,
    ref_out: Seq<u8>,
    ref_elapsed: u64,
)
    requires
        !c.without_lazy,
        gen_event is Completed,
        !over_budget(c, cand_elapsed),
        trim_spec(cand_out) != trim_spec(ref_out),
    ensures
        ({
            let s1 = step_spec(c, StateModel::AwaitGenerator, gen_event);
            let s2 = step_spec(
                c,
                s1,
                EventModel::Completed { output: cand_out, elapsed: cand_elapsed },
            );
            let s3 = step_spec(
                c,
                s2,
                EventModel::Completed { output: ref_out, elapsed: ref_elapsed },
            );
            &&& s3 == StateModel::Done {
                outcome: OutcomeModel::Mismatch {
                    expected: trim_spec(ref_out),
                    got: trim_spec(cand_out),
                },
            }
            &&& next_command_spec(c, s3) is None
        }),
{
}

/// A candidate elapsed time at or over the configured budget times the
/// cycle out, whatever the candidate printed: the budget is enforced before
/// the reference is consulted, and the machine never reaches the state that
/// would run the reference.
pub proof fn lemma_timeout_precedes_comparison(c: ConfigModel, out: Seq<u8>, elapsed: u64)
    requires
        over_budget(c, elapsed),
    ensures
        ({
            let s = step_spec(
                c,
                StateModel::AwaitCandidate,
                EventModel::Completed { output: out, elapsed },
            );
            &&& s == StateModel::Done {
                outcome: OutcomeModel::TimedOut { elapsed, limit: c.max_time.unwrap() },
            }
            &&& !(s is AwaitReference)
        }),
{
}

/// With the reference disabled, no state the machine can reach asks for the
/// reference command: stepping never yields the reference-awaiting state, so
/// a driver that starts at the generator state never runs the reference.
pub proof fn lemma_without_lazy_never_awaits_reference(
    c: ConfigModel,
    s: StateModel,
    e: EventModel,
)
    requires
        c.without_lazy,
        (!(s is AwaitReference)),
    ensures
        (!(step_spec(c, s, e) is AwaitReference)),
{
}

/// With the reference disabled, the outcome depends solely on the
/// candidate's execution success and timing: a candidate that completes
/// within budget passes the cycle outright, one at or over budget times
/// out, and a failed run fails the cycle, whatever was printed.
pub proof fn lemma_without_lazy_outcome(c: ConfigModel, e: EventModel)
    requires
        c.without_lazy,
    ensures
        ({
            let s = step_spec(c, StateModel::AwaitCandidate, e);
            match e {
                EventModel::Completed { output, elapsed } => if over_budget(c, elapsed) {
                    s == StateModel::Done {
                        outcome: OutcomeModel::TimedOut { elapsed, limit: c.max_time.unwrap() },
                    }
                } else {
                    s == StateModel::Done { outcome: OutcomeModel::Passed { elapsed } }
                },
                EventModel::Failed { error } => s == StateModel::Done {
                    outcome: OutcomeModel::ExecutionFailed {
                        command: candidate_command(c),
                        error,
                    },
                },
            }
        }),
{
}

/// A decided cycle is final: it asks for no further command and no event
/// moves it.
pub proof fn lemma_decided_cycle_is_final(c: ConfigModel, o: OutcomeModel, e: EventModel)
    ensures
        (next_command_spec(c, StateModel::Done { outcome: o }) is None),
        (step_spec(c, StateModel::Done { outcome: o }, e) == StateModel::Done { outcome: o }),
{
}

/// The decided outcome, once the cycle has one.
pub fn into_outcome(state: CycleState) -> (r: Option<Outcome>)
    ensures
        match state@ {
            StateModel::Done { outcome } => r matches Some(o) && o@ == outcome,
            _ => r is None,
        },
{
    match state {
        CycleState::Done { outcome } => Some(outcome),
        _ => None,
    }
}

} // verus!
