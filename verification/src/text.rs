//! Trailing-whitespace trimming and output comparison.
//!
//! Captured program outputs are compared for exact equality after trailing
//! whitespace and newlines are removed; nothing else is normalized.

use vstd::prelude::*;

verus! {

/// The whitespace bytes that trimming and tokenization recognize.
pub open spec fn is_space(b: u8) -> bool {
    b == 32 || b == 9 || b == 10 || b == 13
}

/// `s` with every trailing whitespace byte removed.
pub open spec fn trim_spec(s: Seq<u8>) -> Seq<u8>
    decreases s.len(),
{
    if s.len() == 0 {
        s
    } else if is_space(s[s.len() - 1]) {
        trim_spec(s.drop_last())
    } else {
        s
    }
}

/// Whether `b` is one of the whitespace bytes.
pub fn is_space_byte(b: u8) -> (r: bool)
    ensures
        r == is_space(b),
{
    b == 32 || b == 9 || b == 10 || b == 13
}

/// If everything at and after position `n` is whitespace, trimming `s` is the
/// same as trimming its first `n` bytes.
proof fn lemma_trim_of_space_suffix(s: Seq<u8>, n: int)
    requires
        0 <= n <= s.len(),
        forall|j: int| n <= j < s.len() ==> is_space(s[j]),
    ensures
        trim_spec(s) == trim_spec(s.take(n)),
    decreases s.len() - n,
{
    if n == s.len() {
        assert(s.take(n) =~= s);
    } else {
        assert(is_space(s[s.len() - 1]));
        assert(s.drop_last() =~= s.take(s.len() - 1));
        lemma_trim_of_space_suffix(s.take(s.len() - 1), n);
        assert(s.take(s.len() - 1).take(n) =~= s.take(n));
    }
}

/// Appending whitespace never changes what trimming produces: trimmed-output
/// comparison is insensitive to trailing whitespace and newlines.  That it is
/// insensitive to nothing else is [`lemma_trim_decomposition`]: trimming
/// removes only a whitespace suffix.
pub proof fn lemma_trim_ignores_trailing_space(s: Seq<u8>, pad: Seq<u8>)
    requires
        forall|j: int| 0 <= j < pad.len() ==> is_space(pad[j]),
    ensures
        trim_spec(s + pad) == trim_spec(s),
{
    let joined = s + pad;
    lemma_trim_of_space_suffix(joined, s.len() as int);
    assert(joined.take(s.len() as int) =~= s);
}

/// Trimming removes a whitespace-only suffix and nothing more: `s` is its own
/// trimmed prefix followed by whitespace bytes.
pub proof fn lemma_trim_decomposition(s: Seq<u8>)
    ensures
        trim_spec(s).len() <= s.len(),
        trim_spec(s) == s.take(trim_spec(s).len() as int),
        forall|j: int| trim_spec(s).len() <= j < s.len() ==> is_space(s[j]),
    decreases s.len(),
{
    if s.len() > 0 && is_space(s[s.len() - 1]) {
        lemma_trim_decomposition(s.drop_last());
        assert(s.drop_last() =~= s.take(s.len() - 1));
        assert(s.take(s.len() - 1).take(trim_spec(s).len() as int)
            =~= s.take(trim_spec(s).len() as int));
        assert forall|j: int| trim_spec(s).len() <= j < s.len() implies is_space(s[j]) by {
            if j < s.len() - 1 {
                assert(is_space(s.take(s.len() - 1)[j]));
            }
        }
    }
}

/// A copy of `s` with every trailing whitespace byte removed.
pub fn trim_trailing(s: &Vec<u8>) -> (r: Vec<u8>)
    ensures
        r@ == trim_spec(s@),
{
    let mut end: usize = s.len();
    while end > 0 && is_space_byte(s[end - 1])
        invariant
            end <= s.len(),
            forall|j: int| end <= j < s@.len() ==> is_space(s@[j]),
        decreases end,
    {
        end = end - 1;
    }
    proof {
        lemma_trim_of_space_suffix(s@, end as int);
    }
    let mut r: Vec<u8> = Vec::new();
    let mut i: usize = 0;
    while i < end
        invariant
            i <= end <= s@.len(),
            r@ =~= s@.take(i as int),
        decreases end - i,
    {
        r.push(s[i]);
        i = i + 1;
    }
    proof {
        if end > 0 {
            assert(!is_space(s@.take(end as int)[end - 1]));
        }
        assert(trim_spec(s@.take(end as int)) == s@.take(end as int));
    }
    r
}

/// Whether two captured outputs are considered the same answer: exact
/// equality after each has its trailing whitespace removed.
pub fn outputs_equivalent(a: &Vec<u8>, b: &Vec<u8>) -> (r: bool)
    ensures
        r == (trim_spec(a@) == trim_spec(b@)),
{
    let ta = trim_trailing(a);
    let tb = trim_trailing(b);
    bytes_equal(&ta, &tb)
}

/// Whether two byte vectors hold the same bytes.
pub fn bytes_equal(a: &Vec<u8>, b: &Vec<u8>) -> (r: bool)
    ensures
        r == (a@ == b@),
{
    if a.len() != b.len() {
        assert(a@ != b@);
        return false;
    }
    let mut i: usize = 0;
    while i < a.len()
        invariant
            i <= a@.len(),
            a@.len() == b@.len(),
            forall|j: int| 0 <= j < i ==> a@[j] == b@[j],
        decreases a@.len() - i,
    {
        if a[i] != b[i] {
            assert(a@ != b@);
            return false;
        }
        i = i + 1;
    }
    assert(a@ =~= b@);
    true
}

} // verus!
