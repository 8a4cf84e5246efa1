//! Rendering outcomes as human-readable, color-coded report lines.
//!
//! Elapsed times are classified into three presentational tiers — fast below
//! 1000 ms, warn from 1000 ms, fail from 2000 ms — which pick the color the
//! time is printed in.  The classification never affects pass/fail logic;
//! the actual time budget is the configured maximum.  Times are carried as
//! hundredths of a millisecond and printed with two decimals.

use vstd::prelude::*;
use crate::command::append_bytes;
use crate::cycle::ExecError;
use crate::cycle::Outcome;
use crate::cycle::OutcomeModel;

verus! {

/// Elapsed times at or above this many hundredths of a millisecond
/// (2000 ms) render in the fail color.
pub const FAIL_THRESHOLD: u64 = 200000;

/// Elapsed times at or above this many hundredths of a millisecond
/// (1000 ms) render in the warn color.
pub const WARN_THRESHOLD: u64 = 100000;

/// The presentational tier of an elapsed time.
#[derive(Clone, Copy, PartialEq, Eq, Structural, Debug)]
pub enum Severity {
    /// Below 1000 ms.
    Fast,
    /// From 1000 ms up to but excluding 2000 ms.
    Warn,
    /// At or above 2000 ms.
    Fail,
}

/// The tier an elapsed time (in hundredths of a millisecond) falls in.
pub open spec fn severity_spec(elapsed: u64) -> Severity {
    if elapsed >= FAIL_THRESHOLD {
        Severity::Fail
    } else if elapsed >= WARN_THRESHOLD {
        Severity::Warn
    } else {
        Severity::Fast
    }
}

/// Classifies an elapsed time into its presentational tier.
pub fn severity_of(elapsed: u64) -> (r: Severity)
    ensures
        r == severity_spec(elapsed),
{
    if elapsed >= FAIL_THRESHOLD {
        Severity::Fail
    } else if elapsed >= WARN_THRESHOLD {
        Severity::Warn
    } else {
        Severity::Fast
    }
}

/// Appends all of `src` to `dst`.
fn append_arr<const N: usize>(dst: &mut Vec<u8>, src: &[u8; N])
    ensures
        final(dst)@ == old(dst)@ + src@,
{
    let mut i: usize = 0;
    while i < N
        invariant
            i <= N,
            src@.len() == N,
            dst@ =~= old(dst)@ + src@.take(i as int),
        decreases N - i,
    {
        dst.push(src[i]);
        i = i + 1;
    }
    proof {
        assert(dst@ =~= old(dst)@ + src@);
    }
}

/// The opening of every report line: `"Run: "`.
pub open spec fn run_prefix() -> Seq<u8> {
    seq![82u8, 117u8, 110u8, 58u8, 32u8]
}

fn append_run_prefix(dst: &mut Vec<u8>)
    ensures
        final(dst)@ == old(dst)@ + run_prefix(),
{
    append_arr(dst, &[82u8, 117u8, 110u8, 58u8, 32u8]);
    proof {
        assert(dst@ =~= old(dst)@ + run_prefix());
    }
}

/// The word `"passed"`.
pub open spec fn passed_text() -> Seq<u8> {
    seq![112u8, 97u8, 115u8, 115u8, 101u8, 100u8]
}

fn append_passed_text(dst: &mut Vec<u8>)
    ensures
        final(dst)@ == old(dst)@ + passed_text(),
{
    append_arr(dst, &[112u8, 97u8, 115u8, 115u8, 101u8, 100u8]);
    proof {
        assert(dst@ =~= old(dst)@ + passed_text());
    }
}

/// The word `"fail"`.
pub open spec fn fail_text() -> Seq<u8> {
    seq![102u8, 97u8, 105u8, 108u8]
}

fn append_fail_text(dst: &mut Vec<u8>)
    ensures
        final(dst)@ == old(dst)@ + fail_text(),
{
    append_arr(dst, &[102u8, 97u8, 105u8, 108u8]);
    proof {
        assert(dst@ =~= old(dst)@ + fail_text());
    }
}

/// The word `"failed"`.
pub open spec fn failed_text() -> Seq<u8> {
    seq![102u8, 97u8, 105u8, 108u8, 101u8, 100u8]
}

fn append_failed_text(dst: &mut Vec<u8>)
    ensures
        final(dst)@ == old(dst)@ + failed_text(),
{
    append_arr(dst, &[102u8, 97u8, 105u8, 108u8, 101u8, 100u8]);
    proof {
        assert(dst@ =~= old(dst)@ + failed_text());
    }
}

/// The text `" ("`.
pub open spec fn paren_open() -> Seq<u8> {
    seq![32u8, 40u8]
}

fn append_paren_open(dst: &mut Vec<u8>)
    ensures
        final(dst)@ == old(dst)@ + paren_open(),
{
    append_arr(dst, &[32u8, 40u8]);
    proof {
        assert(dst@ =~= old(dst)@ + paren_open());
    }
}

/// The text `"ms)"`.
pub open spec fn ms_close() -> Seq<u8> {
    seq![109u8, 115u8, 41u8]
}

fn append_ms_close(dst: &mut Vec<u8>)
    ensures
        final(dst)@ == old(dst)@ + ms_close(),
{
    append_arr(dst, &[109u8, 115u8, 41u8]);
    proof {
        assert(dst@ =~= old(dst)@ + ms_close());
    }
}

/// The text `" (took "`.
pub open spec fn took_open() -> Seq<u8> {
    seq![32u8, 40u8, 116u8, 111u8, 111u8, 107u8, 32u8]
}

fn append_took_open(dst: &mut Vec<u8>)
    ensures
        final(dst)@ == old(dst)@ + took_open(),
{
    append_arr(dst, &[32u8, 40u8, 116u8, 111u8, 111u8, 107u8, 32u8]);
    proof {
        assert(dst@ =~= old(dst)@ + took_open());
    }
}

/// The text `"ms>="`.
pub open spec fn ms_ge() -> Seq<u8> {
    seq![109u8, 115u8, 62u8, 61u8]
}

fn append_ms_ge(dst: &mut Vec<u8>)
    ensures
        final(dst)@ == old(dst)@ + ms_ge(),
{
    append_arr(dst, &[109u8, 115u8, 62u8, 61u8]);
    proof {
        assert(dst@ =~= old(dst)@ + ms_ge());
    }
}

/// The text that introduces a mismatch report.
pub open spec fn edge_open() -> Seq<u8> {
    seq![32u8, 40u8, 102u8, 111u8, 117u8, 110u8, 100u8, 32u8, 116u8, 104u8, 101u8, 32u8, 101u8, 100u8, 103u8, 101u8, 32u8, 99u8, 97u8, 115u8, 101u8, 32u8, 97u8, 110u8, 100u8, 32u8, 115u8, 116u8, 111u8, 114u8, 101u8, 100u8, 32u8, 105u8, 110u8, 32u8, 105u8, 110u8, 46u8, 116u8, 120u8, 116u8, 46u8, 32u8, 91u8, 111u8, 117u8, 116u8, 112u8, 117u8, 116u8, 58u8, 32u8, 101u8, 120u8, 112u8, 101u8, 99u8, 116u8, 101u8, 100u8, 61u8]
}

fn append_edge_open(dst: &mut Vec<u8>)
    ensures
        final(dst)@ == old(dst)@ + edge_open(),
{
    append_arr(dst, &[32u8, 40u8, 102u8, 111u8, 117u8, 110u8, 100u8, 32u8, 116u8, 104u8, 101u8, 32u8, 101u8, 100u8, 103u8, 101u8, 32u8, 99u8, 97u8, 115u8, 101u8, 32u8, 97u8, 110u8, 100u8, 32u8, 115u8, 116u8, 111u8, 114u8, 101u8, 100u8, 32u8, 105u8, 110u8, 32u8, 105u8, 110u8, 46u8, 116u8, 120u8, 116u8, 46u8, 32u8, 91u8, 111u8, 117u8, 116u8, 112u8, 117u8, 116u8, 58u8, 32u8, 101u8, 120u8, 112u8, 101u8, 99u8, 116u8, 101u8, 100u8, 61u8]);
    proof {
        assert(dst@ =~= old(dst)@ + edge_open());
    }
}

/// The text `", got="`.
pub open spec fn got_sep() -> Seq<u8> {
    seq![44u8, 32u8, 103u8, 111u8, 116u8, 61u8]
}

fn append_got_sep(dst: &mut Vec<u8>)
    ensures
        final(dst)@ == old(dst)@ + got_sep(),
{
    append_arr(dst, &[44u8, 32u8, 103u8, 111u8, 116u8, 61u8]);
    proof {
        assert(dst@ =~= old(dst)@ + got_sep());
    }
}

/// The text `"])"`.
pub open spec fn edge_close() -> Seq<u8> {
    seq![93u8, 41u8]
}

fn append_edge_close(dst: &mut Vec<u8>)
    ensures
        final(dst)@ == old(dst)@ + edge_close(),
{
    append_arr(dst, &[93u8, 41u8]);
    proof {
        assert(dst@ =~= old(dst)@ + edge_close());
    }
}

/// The text `" command '"`.
pub open spec fn command_open() -> Seq<u8> {
    seq![32u8, 99u8, 111u8, 109u8, 109u8, 97u8, 110u8, 100u8, 32u8, 39u8]
}

fn append_command_open(dst: &mut Vec<u8>)
    ensures
        final(dst)@ == old(dst)@ + command_open(),
{
    append_arr(dst, &[32u8, 99u8, 111u8, 109u8, 109u8, 97u8, 110u8, 100u8, 32u8, 39u8]);
    proof {
        assert(dst@ =~= old(dst)@ + command_open());
    }
}

/// The text that introduces a failure status.
pub open spec fn exit_status_text() -> Seq<u8> {
    seq![39u8, 32u8, 102u8, 97u8, 105u8, 108u8, 101u8, 100u8, 32u8, 119u8, 105u8, 116u8, 104u8, 32u8, 101u8, 120u8, 105u8, 116u8, 32u8, 115u8, 116u8, 97u8, 116u8, 117u8, 115u8, 58u8, 32u8]
}

fn append_exit_status_text(dst: &mut Vec<u8>)
    ensures
        final(dst)@ == old(dst)@ + exit_status_text(),
{
    append_arr(dst, &[39u8, 32u8, 102u8, 97u8, 105u8, 108u8, 101u8, 100u8, 32u8, 119u8, 105u8, 116u8, 104u8, 32u8, 101u8, 120u8, 105u8, 116u8, 32u8, 115u8, 116u8, 97u8, 116u8, 117u8, 115u8, 58u8, 32u8]);
    proof {
        assert(dst@ =~= old(dst)@ + exit_status_text());
    }
}

/// The report of an unreadable input file.
pub open spec fn io_open_text() -> Seq<u8> {
    seq![39u8, 32u8, 102u8, 97u8, 105u8, 108u8, 101u8, 100u8, 58u8, 32u8, 116u8, 104u8, 101u8, 32u8, 105u8, 110u8, 112u8, 117u8, 116u8, 32u8, 102u8, 105u8, 108u8, 101u8, 32u8, 99u8, 111u8, 117u8, 108u8, 100u8, 32u8, 110u8, 111u8, 116u8, 32u8, 98u8, 101u8, 32u8, 111u8, 112u8, 101u8, 110u8, 101u8, 100u8]
}

fn append_io_open_text(dst: &mut Vec<u8>)
    ensures
        final(dst)@ == old(dst)@ + io_open_text(),
{
    append_arr(dst, &[39u8, 32u8, 102u8, 97u8, 105u8, 108u8, 101u8, 100u8, 58u8, 32u8, 116u8, 104u8, 101u8, 32u8, 105u8, 110u8, 112u8, 117u8, 116u8, 32u8, 102u8, 105u8, 108u8, 101u8, 32u8, 99u8, 111u8, 117u8, 108u8, 100u8, 32u8, 110u8, 111u8, 116u8, 32u8, 98u8, 101u8, 32u8, 111u8, 112u8, 101u8, 110u8, 101u8, 100u8]);
    proof {
        assert(dst@ =~= old(dst)@ + io_open_text());
    }
}

/// The report of undecodable output.
pub open spec fn invalid_output_text() -> Seq<u8> {
    seq![39u8, 32u8, 102u8, 97u8, 105u8, 108u8, 101u8, 100u8, 58u8, 32u8, 105u8, 116u8, 115u8, 32u8, 111u8, 117u8, 116u8, 112u8, 117u8, 116u8, 32u8, 105u8, 115u8, 32u8, 110u8, 111u8, 116u8, 32u8, 118u8, 97u8, 108u8, 105u8, 100u8, 32u8, 116u8, 101u8, 120u8, 116u8]
}

fn append_invalid_output_text(dst: &mut Vec<u8>)
    ensures
        final(dst)@ == old(dst)@ + invalid_output_text(),
{
    append_arr(dst, &[39u8, 32u8, 102u8, 97u8, 105u8, 108u8, 101u8, 100u8, 58u8, 32u8, 105u8, 116u8, 115u8, 32u8, 111u8, 117u8, 116u8, 112u8, 117u8, 116u8, 32u8, 105u8, 115u8, 32u8, 110u8, 111u8, 116u8, 32u8, 118u8, 97u8, 108u8, 105u8, 100u8, 32u8, 116u8, 101u8, 120u8, 116u8]);
    proof {
        assert(dst@ =~= old(dst)@ + invalid_output_text());
    }
}

/// The escape sequence that turns the terminal blue.
pub open spec fn blue_code() -> Seq<u8> {
    seq![27u8, 91u8, 57u8, 52u8, 109u8]
}

fn append_blue_code(dst: &mut Vec<u8>)
    ensures
        final(dst)@ == old(dst)@ + blue_code(),
{
    append_arr(dst, &[27u8, 91u8, 57u8, 52u8, 109u8]);
    proof {
        assert(dst@ =~= old(dst)@ + blue_code());
    }
}

/// The escape sequence that turns the terminal green.
pub open spec fn green_code() -> Seq<u8> {
    seq![27u8, 91u8, 57u8, 50u8, 109u8]
}

fn append_green_code(dst: &mut Vec<u8>)
    ensures
        final(dst)@ == old(dst)@ + green_code(),
{
    append_arr(dst, &[27u8, 91u8, 57u8, 50u8, 109u8]);
    proof {
        assert(dst@ =~= old(dst)@ + green_code());
    }
}

/// The escape sequence that turns the terminal bold yellow.
pub open spec fn warn_code() -> Seq<u8> {
    seq![27u8, 91u8, 49u8, 59u8, 51u8, 51u8, 109u8]
}

fn append_warn_code(dst: &mut Vec<u8>)
    ensures
        final(dst)@ == old(dst)@ + warn_code(),
{
    append_arr(dst, &[27u8, 91u8, 49u8, 59u8, 51u8, 51u8, 109u8]);
    proof {
        assert(dst@ =~= old(dst)@ + warn_code());
    }
}

/// The escape sequence that turns the terminal red.
pub open spec fn fail_code() -> Seq<u8> {
    seq![27u8, 91u8, 57u8, 49u8, 109u8]
}

fn append_fail_code(dst: &mut Vec<u8>)
    ensures
        final(dst)@ == old(dst)@ + fail_code(),
{
    append_arr(dst, &[27u8, 91u8, 57u8, 49u8, 109u8]);
    proof {
        assert(dst@ =~= old(dst)@ + fail_code());
    }
}

/// The escape sequence that restores the terminal color.
pub open spec fn end_code() -> Seq<u8> {
    seq![27u8, 91u8, 48u8, 109u8]
}

fn append_end_code(dst: &mut Vec<u8>)
    ensures
        final(dst)@ == old(dst)@ + end_code(),
{
    append_arr(dst, &[27u8, 91u8, 48u8, 109u8]);
    proof {
        assert(dst@ =~= old(dst)@ + end_code());
    }
}

/// The decimal digits of `n`, most significant first, as bytes.
pub open spec fn dec_digits(n: nat) -> Seq<u8>
    decreases n,
{
    if n < 10 {
        seq![(48 + n) as u8]
    } else {
        dec_digits(n / 10).push((48 + n % 10) as u8)
    }
}

/// The decimal rendering of `n`, read as a count of hundredths, with two
/// digits after the point: `5000` renders as `50.00`.
pub open spec fn fixed2_spec(n: nat) -> Seq<u8> {
    dec_digits(n / 100) + seq![46u8, (48 + (n % 100) / 10) as u8, (48 + n % 10) as u8]
}

/// The decimal rendering of `n`, with a leading minus sign when negative.
pub open spec fn signed_dec(n: int) -> Seq<u8> {
    if n < 0 {
        seq![45u8] + dec_digits((-n) as nat)
    } else {
        dec_digits(n as nat)
    }
}

/// Appends the decimal digits of `n`.
fn append_dec_digits(dst: &mut Vec<u8>, n: u64)
    ensures
        final(dst)@ == old(dst)@ + dec_digits(n as nat),
    decreases n,
{
    if n < 10 {
        dst.push(48 + n as u8);
        proof {
            assert(dst@ =~= old(dst)@ + dec_digits(n as nat));
        }
    } else {
        append_dec_digits(dst, n / 10);
        dst.push(48 + (n % 10) as u8);
        proof {
            assert(dst@ =~= old(dst)@ + dec_digits(n as nat));
        }
    }
}

/// Appends `n` hundredths rendered with two decimal digits.
fn append_fixed2(dst: &mut Vec<u8>, n: u64)
    ensures
        final(dst)@ == old(dst)@ + fixed2_spec(n as nat),
{
    append_dec_digits(dst, n / 100);
    dst.push(46);
    dst.push(48 + ((n % 100) / 10) as u8);
    dst.push(48 + (n % 10) as u8);
    proof {
        assert(dst@ =~= old(dst)@ + fixed2_spec(n as nat));
    }
}

/// Appends the decimal rendering of `n`, signed.
fn append_signed_dec(dst: &mut Vec<u8>, n: i64)
    ensures
        final(dst)@ == old(dst)@ + signed_dec(n as int),
{
    if n < 0 {
        dst.push(45);
        let mag: u64 = ((-(n + 1)) as u64) + 1;
        proof {
            assert(mag as int == -(n as int));
        }
        append_dec_digits(dst, mag);
        proof {
            assert(dst@ =~= old(dst)@ + signed_dec(n as int));
        }
    } else {
        append_dec_digits(dst, n as u64);
    }
}

/// The tokens of a command joined with single spaces.
pub open spec fn join_spec(ts: Seq<Seq<u8>>) -> Seq<u8>
    decreases ts.len(),
{
    if ts.len() == 0 {
        Seq::empty()
    } else if ts.len() == 1 {
        ts[0]
    } else {
        ts[0] + seq![32u8] + join_spec(ts.skip(1))
    }
}

/// Joining one more token appends a separating space (unless nothing was
/// joined yet) and then the token.
proof fn lemma_join_push(ts: Seq<Seq<u8>>, t: Seq<u8>)
    ensures
        join_spec(ts.push(t)) == if ts.len() == 0 {
            t
        } else {
            join_spec(ts) + seq![32u8] + t
        },
    decreases ts.len(),
{
    if ts.len() == 0 {
        assert(ts.push(t)[0] == t);
    } else {
        lemma_join_push(ts.skip(1), t);
        assert(ts.push(t).skip(1) =~~= ts.skip(1).push(t));
        assert(ts.push(t)[0] == ts[0]);
        assert(join_spec(ts.push(t)) =~= join_spec(ts) + seq![32u8] + t);
    }
}

/// Joins the tokens of a command with single spaces.
pub fn join_tokens(ts: &Vec<Vec<u8>>) -> (r: Vec<u8>)
    ensures
        r@ == join_spec(ts.deep_view()),
{
    let mut r: Vec<u8> = Vec::new();
    let mut i: usize = 0;
    proof {
        assert(ts.deep_view().take(0) =~~= Seq::<Seq<u8>>::empty());
    }
    while i < ts.len()
        invariant
            i <= ts@.len(),
            ts.deep_view().len() == ts@.len(),
            r@ == join_spec(ts.deep_view().take(i as int)),
        decreases ts@.len() - i,
    {
        let ghost dv = ts.deep_view();
        if i > 0 {
            r.push(32);
        }
        append_bytes(&mut r, &ts[i]);
        proof {
            lemma_join_push(dv.take(i as int), dv[i as int]);
            assert(dv.take(i as int).push(dv[i as int]) =~~= dv.take(i + 1));
            assert(ts@[i as int].deep_view() =~= ts@[i as int]@);
            assert(r@ =~= join_spec(dv.take(i + 1)));
        }
        i = i + 1;
    }
    proof {
        assert(ts.deep_view().take(ts@.len() as int) =~~= ts.deep_view());
    }
    r
}

/// `body` wrapped in a color escape and the color reset.
pub open spec fn colored(color: Seq<u8>, body: Seq<u8>) -> Seq<u8> {
    color + body + end_code()
}

/// The escape sequence of a tier's color.
pub open spec fn severity_color(sev: Severity) -> Seq<u8> {
    match sev {
        Severity::Fast => blue_code(),
        Severity::Warn => warn_code(),
        Severity::Fail => fail_code(),
    }
}

/// An elapsed time as printed: two decimals, in its tier's color.
pub open spec fn elapsed_display_spec(elapsed: u64) -> Seq<u8> {
    colored(severity_color(severity_spec(elapsed)), fixed2_spec(elapsed as nat))
}

/// The full report line of an outcome, color codes included.
pub open spec fn render_spec(o: OutcomeModel) -> Seq<u8> {
    match o {
        OutcomeModel::Passed { elapsed } => run_prefix() + colored(green_code(), passed_text())
            + paren_open() + elapsed_display_spec(elapsed) + ms_close(),
        OutcomeModel::TimedOut { elapsed, limit } => run_prefix()
            + colored(fail_code(), fail_text()) + took_open() + elapsed_display_spec(elapsed)
            + ms_ge() + fixed2_spec(limit as nat) + ms_close(),
        OutcomeModel::Mismatch { expected, got } => run_prefix()
            + colored(fail_code(), failed_text()) + edge_open() + colored(green_code(), expected)
            + got_sep() + colored(fail_code(), got) + edge_close(),
        OutcomeModel::ExecutionFailed { command, error } => run_prefix()
            + colored(fail_code(), fail_text()) + command_open() + join_spec(command) + match error {
            ExecError::NonZeroExit { status } => exit_status_text() + signed_dec(status as int),
            ExecError::IoOpen => io_open_text(),
            ExecError::InvalidOutput => invalid_output_text(),
        },
    }
}

/// Renders a count of hundredths of a millisecond with two decimal digits:
/// `5000` renders as `50.00`.
pub fn fixed2_bytes(n: u64) -> (r: Vec<u8>)
    ensures
        r@ == fixed2_spec(n as nat),
{
    let mut r: Vec<u8> = Vec::new();
    append_fixed2(&mut r, n);
    proof {
        assert(r@ =~= fixed2_spec(n as nat));
    }
    r
}

/// Appends an elapsed time, two decimals, in its tier's color.
pub fn append_elapsed_display(dst: &mut Vec<u8>, elapsed: u64)
    ensures
        final(dst)@ == old(dst)@ + elapsed_display_spec(elapsed),
{
    match severity_of(elapsed) {
        Severity::Fast => append_blue_code(dst),
        Severity::Warn => append_warn_code(dst),
        Severity::Fail => append_fail_code(dst),
    }
    append_fixed2(dst, elapsed);
    append_end_code(dst);
    proof {
        assert(dst@ =~= old(dst)@ + elapsed_display_spec(elapsed));
    }
}

/// Renders an outcome as its report line, color codes included.
pub fn render_outcome(o: &Outcome) -> (r: Vec<u8>)
    ensures
        r@ == render_spec(o@),
{
    let mut r: Vec<u8> = Vec::new();
    append_run_prefix(&mut r);
    match o {
        Outcome::Passed { elapsed } => {
            append_green_code(&mut r);
            append_passed_text(&mut r);
            append_end_code(&mut r);
            append_paren_open(&mut r);
            append_elapsed_display(&mut r, *elapsed);
            append_ms_close(&mut r);
        },
        Outcome::TimedOut { elapsed, limit } => {
            append_fail_code(&mut r);
            append_fail_text(&mut r);
            append_end_code(&mut r);
            append_took_open(&mut r);
            append_elapsed_display(&mut r, *elapsed);
            append_ms_ge(&mut r);
            append_fixed2(&mut r, *limit);
            append_ms_close(&mut r);
        },
        Outcome::Mismatch { expected, got } => {
            append_fail_code(&mut r);
            append_failed_text(&mut r);
            append_end_code(&mut r);
            append_edge_open(&mut r);
            append_green_code(&mut r);
            append_bytes(&mut r, expected);
            append_end_code(&mut r);
            append_got_sep(&mut r);
            append_fail_code(&mut r);
            append_bytes(&mut r, got);
            append_end_code(&mut r);
            append_edge_close(&mut r);
        },
        Outcome::ExecutionFailed { command, error } => {
            append_fail_code(&mut r);
            append_fail_text(&mut r);
            append_end_code(&mut r);
            append_command_open(&mut r);
            let joined = join_tokens(command);
            append_bytes(&mut r, &joined);
            match error {
                ExecError::NonZeroExit { status } => {
                    append_exit_status_text(&mut r);
                    append_signed_dec(&mut r, *status);
                },
                ExecError::IoOpen => {
                    append_io_open_text(&mut r);
                },
                ExecError::InvalidOutput => {
                    append_invalid_output_text(&mut r);
                },
            }
        },
    }
    proof {
        assert(r@ =~= render_spec(o@));
    }
    r
}

} // verus!
