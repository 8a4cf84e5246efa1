//! Command templates.
//!
//! A command is configured as a whitespace-delimited template string, possibly
//! holding the placeholder token `{argv0}`.  Before a cycle runs a program,
//! the placeholder is replaced by the program's logical name and the result is
//! split into tokens: the program path followed by its arguments.

use vstd::prelude::*;
use crate::text::is_space;
use crate::text::is_space_byte;

verus! {

/// The bytes of the placeholder token `{argv0}`.
pub open spec fn placeholder() -> Seq<u8> {
    seq![123u8, 97u8, 114u8, 103u8, 118u8, 48u8, 125u8]
}

/// The bytes of the suffix `_lazy`, appended to the candidate's name to
/// derive the reference program's name when no explicit reference template
/// is configured.
pub open spec fn lazy_suffix() -> Seq<u8> {
    seq![95u8, 108u8, 97u8, 122u8, 121u8]
}

/// `s` with every occurrence of `pat` replaced by `rep`, scanning left to
/// right without re-examining replaced text.
pub open spec fn subst_spec(s: Seq<u8>, pat: Seq<u8>, rep: Seq<u8>) -> Seq<u8>
    decreases s.len(),
{
    if s.len() == 0 {
        s
    } else if pat.len() > 0 && s.len() >= pat.len() && s.take(pat.len() as int) == pat {
        rep + subst_spec(s.skip(pat.len() as int), pat, rep)
    } else {
        seq![s[0]] + subst_spec(s.skip(1), pat, rep)
    }
}

/// The tokens of `s` read left to right, with `cur` the partial token
/// collected so far: maximal runs of non-whitespace bytes, in order.
pub open spec fn tokens_acc(s: Seq<u8>, cur: Seq<u8>) -> Seq<Seq<u8>>
    decreases s.len(),
{
    if s.len() == 0 {
        if cur.len() == 0 {
            Seq::empty()
        } else {
            seq![cur]
        }
    } else if is_space(s[0]) {
        if cur.len() == 0 {
            tokens_acc(s.skip(1), Seq::empty())
        } else {
            seq![cur] + tokens_acc(s.skip(1), Seq::empty())
        }
    } else {
        tokens_acc(s.skip(1), cur.push(s[0]))
    }
}

/// The whitespace-delimited tokens of `s`, in order, with empty tokens
/// dropped.
pub open spec fn tokens_spec(s: Seq<u8>) -> Seq<Seq<u8>> {
    tokens_acc(s, Seq::empty())
}

/// Whether every token is nonempty and holds no whitespace byte.
pub open spec fn wf_tokens(ts: Seq<Seq<u8>>) -> bool {
    forall|k: int| 0 <= k < ts.len() ==> (#[trigger] ts[k]).len() > 0 && no_space(ts[k])
}

/// Whether `t` holds no whitespace byte.
pub open spec fn no_space(t: Seq<u8>) -> bool {
    forall|j: int| 0 <= j < t.len() ==> !is_space(#[trigger] t[j])
}

/// Tokens are maximal runs of non-whitespace: with a whitespace-free partial
/// token in hand, every token read out is nonempty and whitespace-free.
proof fn lemma_tokens_acc_wellformed(s: Seq<u8>, cur: Seq<u8>)
    requires
        no_space(cur),
    ensures
        wf_tokens(tokens_acc(s, cur)),
    decreases s.len(),
{
    if s.len() == 0 {
        if cur.len() > 0 {
            assert forall|k: int| 0 <= k < tokens_acc(s, cur).len()
                implies (#[trigger] tokens_acc(s, cur)[k]).len() > 0
                    && no_space(tokens_acc(s, cur)[k]) by {
                assert(tokens_acc(s, cur)[k] == cur);
            }
        }
    } else if is_space(s[0]) {
        lemma_tokens_acc_wellformed(s.skip(1), Seq::empty());
        if cur.len() > 0 {
            let rest = tokens_acc(s.skip(1), Seq::empty());
            assert forall|k: int| 0 <= k < tokens_acc(s, cur).len()
                implies (#[trigger] tokens_acc(s, cur)[k]).len() > 0
                    && no_space(tokens_acc(s, cur)[k]) by {
                if k == 0 {
                    assert(tokens_acc(s, cur)[0] == cur);
                } else {
                    assert(tokens_acc(s, cur)[k] == rest[k - 1]);
                }
            }
        }
    } else {
        let pushed = cur.push(s[0]);
        assert forall|j: int| 0 <= j < pushed.len() implies !is_space(#[trigger] pushed[j]) by {
            if j == cur.len() {
                assert(pushed[j] == s[0]);
            }
        }
        lemma_tokens_acc_wellformed(s.skip(1), pushed);
    }
}

/// Every token a template is split into is nonempty and holds no whitespace
/// byte: the split is exactly into the maximal non-whitespace runs.
pub proof fn lemma_tokens_wellformed(s: Seq<u8>)
    ensures
        wf_tokens(tokens_spec(s)),
{
    lemma_tokens_acc_wellformed(s, Seq::empty());
}

/// The command tokens a template and a program name give rise to: the
/// placeholder substituted, then the result tokenized.
pub open spec fn command_spec(template: Seq<u8>, name: Seq<u8>) -> Seq<Seq<u8>> {
    tokens_spec(subst_spec(template, placeholder(), name))
}

/// The placeholder token `{argv0}` as a byte vector.
pub fn placeholder_bytes() -> (r: Vec<u8>)
    ensures
        r@ == placeholder(),
{
    let mut r: Vec<u8> = Vec::new();
    r.push(123);
    r.push(97);
    r.push(114);
    r.push(103);
    r.push(118);
    r.push(48);
    r.push(125);
    proof {
        assert(r@ =~= placeholder());
    }
    r
}

/// `name` with the `_lazy` suffix appended.
pub fn with_lazy_suffix(name: &Vec<u8>) -> (r: Vec<u8>)
    ensures
        r@ == name@ + lazy_suffix(),
{
    let mut r = copy_bytes(name);
    r.push(95);
    r.push(108);
    r.push(97);
    r.push(122);
    r.push(121);
    proof {
        assert(r@ =~= name@ + lazy_suffix());
    }
    r
}

/// A fresh copy of a byte vector.
pub fn copy_bytes(s: &Vec<u8>) -> (r: Vec<u8>)
    ensures
        r@ == s@,
{
    let mut r: Vec<u8> = Vec::new();
    let mut i: usize = 0;
    while i < s.len()
        invariant
            i <= s@.len(),
            r@ =~= s@.take(i as int),
        decreases s@.len() - i,
    {
        r.push(s[i]);
        i = i + 1;
    }
    proof {
        assert(r@ =~= s@);
    }
    r
}

/// Appends all of `src` to `dst`.
pub fn append_bytes(dst: &mut Vec<u8>, src: &Vec<u8>)
    ensures
        final(dst)@ == old(dst)@ + src@,
{
    let mut i: usize = 0;
    while i < src.len()
        invariant
            i <= src@.len(),
            dst@ =~= old(dst)@ + src@.take(i as int),
        decreases src@.len() - i,
    {
        dst.push(src[i]);
        i = i + 1;
    }
    proof {
        assert(dst@ =~= old(dst)@ + src@);
    }
}

/// Whether `pat` occurs in `s` starting at position `i`.
fn matches_at(s: &Vec<u8>, i: usize, pat: &Vec<u8>) -> (r: bool)
    requires
        i <= s@.len(),
    ensures
        r == (i + pat@.len() <= s@.len() && s@.subrange(i as int, i + pat@.len()) == pat@),
{
    let n = s.len();
    if pat.len() > n - i {
        return false;
    }
    let mut j: usize = 0;
    while j < pat.len()
        invariant
            j <= pat@.len(),
            s@.len() == n,
            i + pat@.len() <= s@.len(),
            forall|k: int| 0 <= k < j ==> s@[i + k] == pat@[k],
        decreases pat@.len() - j,
    {
        if s[i + j] != pat[j] {
            assert(s@.subrange(i as int, i + pat@.len())[j as int] != pat@[j as int]);
            return false;
        }
        j = j + 1;
    }
    proof {
        assert(s@.subrange(i as int, i + pat@.len()) =~= pat@);
    }
    true
}

/// `s` with every occurrence of `pat` replaced by `rep`, scanning left to
/// right.
pub fn substitute(s: &Vec<u8>, pat: &Vec<u8>, rep: &Vec<u8>) -> (r: Vec<u8>)
    requires
        pat@.len() > 0,
    ensures
        r@ == subst_spec(s@, pat@, rep@),
{
    let mut out: Vec<u8> = Vec::new();
    let mut i: usize = 0;
    proof {
        assert(s@.skip(0) =~= s@);
    }
    while i < s.len()
        invariant
            i <= s@.len(),
            pat@.len() > 0,
            out@ + subst_spec(s@.skip(i as int), pat@, rep@) == subst_spec(s@, pat@, rep@),
        decreases s@.len() - i,
    {
        let ghost rest = s@.skip(i as int);
        proof {
            assert(rest.len() == s@.len() - i);
            assert(rest[0] == s@[i as int]);
        }
        if matches_at(s, i, pat) {
            proof {
                assert(rest.take(pat@.len() as int) =~= s@.subrange(i as int, i + pat@.len()));
                assert(rest.skip(pat@.len() as int) =~= s@.skip(i + pat@.len()));
                assert(subst_spec(rest, pat@, rep@)
                    == rep@ + subst_spec(s@.skip(i + pat@.len()), pat@, rep@));
            }
            append_bytes(&mut out, rep);
            i = i + pat.len();
            proof {
                assert(out@ + subst_spec(s@.skip(i as int), pat@, rep@)
                    =~= subst_spec(s@, pat@, rep@));
            }
        } else {
            proof {
                if rest.len() >= pat@.len() && rest.take(pat@.len() as int) == pat@ {
                    assert(rest.take(pat@.len() as int)
                        =~= s@.subrange(i as int, i + pat@.len()));
                }
                assert(rest.skip(1) =~= s@.skip(i + 1));
                assert(subst_spec(rest, pat@, rep@)
                    == seq![s@[i as int]] + subst_spec(s@.skip(i + 1), pat@, rep@));
            }
            out.push(s[i]);
            i = i + 1;
            proof {
                assert(out@ + subst_spec(s@.skip(i as int), pat@, rep@)
                    =~= subst_spec(s@, pat@, rep@));
            }
        }
    }
    proof {
        assert(s@.skip(i as int) =~= Seq::<u8>::empty());
        assert(out@ =~= subst_spec(s@, pat@, rep@));
    }
    out
}

/// Splits `s` into its whitespace-delimited tokens.
pub fn tokenize(s: &Vec<u8>) -> (r: Vec<Vec<u8>>)
    ensures
        r.deep_view() == tokens_spec(s@),
{
    let mut toks: Vec<Vec<u8>> = Vec::new();
    let mut cur: Vec<u8> = Vec::new();
    let mut i: usize = 0;
    proof {
        assert(s@.skip(0) =~= s@);
    }
    while i < s.len()
        invariant
            i <= s@.len(),
            toks.deep_view() + tokens_acc(s@.skip(i as int), cur@) == tokens_spec(s@),
        decreases s@.len() - i,
    {
        let ghost rest = s@.skip(i as int);
        let ghost toks0 = toks.deep_view();
        let ghost cur0 = cur@;
        proof {
            assert(rest[0] == s@[i as int]);
            assert(rest.skip(1) =~= s@.skip(i + 1));
        }
        let b = s[i];
        if is_space_byte(b) {
            if cur.len() > 0 {
                toks.push(cur);
                cur = Vec::new();
                proof {
                    assert(toks.deep_view() =~~= toks0.push(cur0));
                    assert(tokens_acc(rest, cur0)
                        == seq![cur0] + tokens_acc(s@.skip(i + 1), Seq::empty()));
                    assert(toks.deep_view() + tokens_acc(s@.skip(i + 1), cur@)
                        =~~= tokens_spec(s@));
                }
            } else {
                proof {
                    assert(tokens_acc(rest, cur0) == tokens_acc(s@.skip(i + 1), Seq::empty()));
                    assert(cur@ =~= Seq::<u8>::empty());
                }
            }
        } else {
            cur.push(b);
            proof {
                assert(tokens_acc(rest, cur0) == tokens_acc(s@.skip(i + 1), cur0.push(s@[i as int])));
                assert(cur@ =~= cur0.push(s@[i as int]));
            }
        }
        i = i + 1;
    }
    proof {
        assert(s@.skip(i as int) =~= Seq::<u8>::empty());
    }
    if cur.len() > 0 {
        let ghost toks0 = toks.deep_view();
        let ghost cur0 = cur@;
        toks.push(cur);
        proof {
            assert(toks.deep_view() =~~= toks0.push(cur0));
            assert(toks.deep_view() =~~= tokens_spec(s@));
        }
    }
    toks
}

/// Builds the command for a program: substitutes the program's name for the
/// placeholder in the template, then splits the result into tokens.
pub fn build_command(template: &Vec<u8>, name: &Vec<u8>) -> (r: Vec<Vec<u8>>)
    ensures
        r.deep_view() == command_spec(template@, name@),
{
    let pat = placeholder_bytes();
    let substituted = substitute(template, &pat, name);
    tokenize(&substituted)
}

} // verus!
