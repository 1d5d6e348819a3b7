//! Small verified string helpers shared across the crate.

use vstd::prelude::*;

verus! {

/// `pre` is a prefix of `s`.
pub open spec fn spec_has_prefix(s: Seq<char>, pre: Seq<char>) -> bool {
    pre.len() <= s.len() && s.subrange(0, pre.len() as int) == pre
}

/// `suf` is a suffix of `s`.
pub open spec fn spec_has_suffix(s: Seq<char>, suf: Seq<char>) -> bool {
    suf.len() <= s.len() && s.subrange(s.len() - suf.len(), s.len() as int) == suf
}

/// Character-wise equality of two string slices.
pub fn str_eq(a: &str, b: &str) -> (r: bool)
    ensures
        r == (a@ == b@),
{
    let n = a.unicode_len();
    if n != b.unicode_len() {
        assert(a@ != b@);
        return false;
    }
    for i in 0..n
        invariant
            n == a@.len(),
            n == b@.len(),
            forall|j: int| 0 <= j < i ==> a@[j] == #[trigger] b@[j],
    {
        if a.get_char(i) != b.get_char(i) {
            return false;
        }
    }
    assert(a@ =~= b@);
    true
}

/// Does `s` start with `pre`?
pub fn str_has_prefix(s: &str, pre: &str) -> (r: bool)
    ensures
        r == spec_has_prefix(s@, pre@),
{
    let n = pre.unicode_len();
    if n > s.unicode_len() {
        return false;
    }
    for i in 0..n
        invariant
            n == pre@.len(),
            n <= s@.len(),
            forall|j: int| 0 <= j < i ==> s@[j] == #[trigger] pre@[j],
    {
        if s.get_char(i) != pre.get_char(i) {
            assert(s@.subrange(0, pre@.len() as int)[i as int] != pre@[i as int]);
            return false;
        }
    }
    assert(s@.subrange(0, pre@.len() as int) =~= pre@);
    true
}

/// Does `s` end with `suf`?
pub fn str_has_suffix(s: &str, suf: &str) -> (r: bool)
    ensures
        r == spec_has_suffix(s@, suf@),
{
    let n = suf.unicode_len();
    let m = s.unicode_len();
    if n > m {
        return false;
    }
    let off = m - n;
    for i in 0..n
        invariant
            n == suf@.len(),
            m == s@.len(),
            off == m - n,
            forall|j: int| 0 <= j < i ==> s@[off + j] == #[trigger] suf@[j],
    {
        if s.get_char(off + i) != suf.get_char(i) {
            assert(s@.subrange(s@.len() - suf@.len(), s@.len() as int)[i as int]
                != suf@[i as int]);
            return false;
        }
    }
    assert(s@.subrange(s@.len() - suf@.len(), s@.len() as int) =~= suf@);
    true
}

/// Relies on `String::push`: appends exactly the one character.
#[verifier::external_body]
pub fn push_char(s: &mut String, c: char)
    ensures
        final(s)@ == old(s)@ + seq![c],
{
    s.push(c);
}

} // verus!
