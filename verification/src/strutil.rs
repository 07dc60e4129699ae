//! Verified case-sensitive prefix and substring tests on strings,
//! used by mode selection and device-name matching.

use vstd::prelude::*;
use vstd::string::StrSliceExecFns;

verus! {

/// The needle `n` occurs in `s` starting at position `i`.
pub open spec fn contains_at(s: Seq<char>, n: Seq<char>, i: int) -> bool {
    0 <= i && i + n.len() <= s.len() && s.subrange(i, i + n.len() as int) == n
}

/// The needle `n` occurs somewhere in `s`.
pub open spec fn contains_seq(s: Seq<char>, n: Seq<char>) -> bool {
    exists|i: int| contains_at(s, n, i)
}

/// Whether `p` is a prefix of `s`, character for character.
pub fn str_starts_with(s: &str, p: &str) -> (b: bool)
    ensures
        b == p@.is_prefix_of(s@),
{
    let slen = s.unicode_len();
    let plen = p.unicode_len();
    if plen > slen {
        return false;
    }
    let mut i: usize = 0;
    while i < plen
        invariant
            i <= plen,
            plen == p@.len(),
            slen == s@.len(),
            plen <= slen,
            forall|j: int| 0 <= j < i ==> s@[j] == p@[j],
        decreases plen - i,
    {
        if s.get_char(i) != p.get_char(i) {
            assert(!p@.is_prefix_of(s@)) by {
                if p@.is_prefix_of(s@) {
                    assert(p@[i as int] == s@.subrange(0, plen as int)[i as int]);
                }
            }
            return false;
        }
        i += 1;
    }
    assert(p@ =~= s@.subrange(0, plen as int));
    true
}

/// Whether `n` occurs in `s` starting at position `i`.
fn matches_at(s: &str, n: &str, i: usize) -> (b: bool)
    requires
        i + n@.len() <= s@.len(),
        s@.len() <= usize::MAX as int,
    ensures
        b == contains_at(s@, n@, i as int),
{
    let nlen = n.unicode_len();
    let mut j: usize = 0;
    while j < nlen
        invariant
            j <= nlen,
            nlen == n@.len(),
            i + nlen <= s@.len() <= usize::MAX as int,
            forall|k: int| 0 <= k < j ==> s@[i + k] == n@[k],
        decreases nlen - j,
    {
        if s.get_char(i + j) != n.get_char(j) {
            assert(!contains_at(s@, n@, i as int)) by {
                if contains_at(s@, n@, i as int) {
                    assert(n@[j as int] == s@.subrange(
                        i as int,
                        i as int + n@.len() as int,
                    )[j as int]);
                }
            }
            return false;
        }
        j += 1;
    }
    assert(s@.subrange(i as int, i as int + n@.len() as int) =~= n@);
    true
}

/// Whether `n` occurs anywhere in `s`, case-sensitively.
pub fn str_contains(s: &str, n: &str) -> (b: bool)
    ensures
        b == contains_seq(s@, n@),
{
    let slen = s.unicode_len();
    let nlen = n.unicode_len();
    if nlen == 0 {
        assert(contains_at(s@, n@, 0)) by {
            assert(s@.subrange(0, 0) =~= n@);
        }
        return true;
    }
    if nlen > slen {
        assert(!contains_seq(s@, n@)) by {
            assert(forall|i: int| !contains_at(s@, n@, i));
        }
        return false;
    }
    let mut i: usize = 0;
    while i <= slen - nlen
        invariant
            1 <= nlen <= slen,
            slen == s@.len(),
            nlen == n@.len(),
            i <= slen - nlen + 1,
            forall|k: int| 0 <= k < i ==> !contains_at(s@, n@, k),
        decreases slen - nlen + 1 - i,
    {
        if matches_at(s, n, i) {
            return true;
        }
        i += 1;
    }
    assert(!contains_seq(s@, n@)) by {
        assert(forall|k: int| k > slen - nlen ==> !contains_at(s@, n@, k));
    }
    false
}

} // verus!
