//! Verified text primitives: prefix, suffix and substring tests over
//! character sequences. Classification and path handling are built on
//! these.

use vstd::prelude::*;
use vstd::string::StrSliceExecFns;

verus! {

/// `p` is a prefix of `s`.
pub open spec fn spec_starts_with(s: Seq<char>, p: Seq<char>) -> bool {
    p.len() <= s.len() && s.subrange(0, p.len() as int) == p
}

/// `p` is a suffix of `s`.
pub open spec fn spec_ends_with(s: Seq<char>, p: Seq<char>) -> bool {
    p.len() <= s.len() && s.subrange(s.len() - p.len(), s.len() as int) == p
}

/// `n` matches `h` at offset `at`.
pub open spec fn spec_matches_at(h: Seq<char>, n: Seq<char>, at: int) -> bool {
    0 <= at && at + n.len() <= h.len() && h.subrange(at, at + n.len()) == n
}

/// `n` occurs in `h` as a contiguous run.
pub open spec fn spec_contains(h: Seq<char>, n: Seq<char>) -> bool {
    exists|i: int| #[trigger] spec_matches_at(h, n, i)
}

fn matches_at(h: &str, n: &str, at: usize, h_len: usize, n_len: usize) -> (r: bool)
    requires
        h_len == h@.len(),
        n_len == n@.len(),
        at + n_len <= h_len,
    ensures
        r == spec_matches_at(h@, n@, at as int),
{
    let mut k: usize = 0;
    while k < n_len
        invariant
            h_len == h@.len(),
            n_len == n@.len(),
            at + n_len <= h_len,
            k <= n_len,
            forall|j: int| 0 <= j < k ==> h@[at + j] == n@[j],
        decreases n_len - k,
    {
        if h.get_char(at + k) != n.get_char(k) {
            proof {
                assert(h@.subrange(at as int, at + n@.len())[k as int] == h@[at + k]);
            }
            return false;
        }
        k = k + 1;
    }
    proof {
        assert(h@.subrange(at as int, at + n@.len()) =~= n@);
    }
    true
}

/// Whether `s` begins with `p`.
pub fn starts_with_str(s: &str, p: &str) -> (r: bool)
    ensures
        r == spec_starts_with(s@, p@),
{
    let s_len = s.unicode_len();
    let p_len = p.unicode_len();
    if p_len > s_len {
        return false;
    }
    matches_at(s, p, 0, s_len, p_len)
}

/// Whether `s` ends with `p`.
pub fn ends_with_str(s: &str, p: &str) -> (r: bool)
    ensures
        r == spec_ends_with(s@, p@),
{
    let s_len = s.unicode_len();
    let p_len = p.unicode_len();
    if p_len > s_len {
        return false;
    }
    matches_at(s, p, s_len - p_len, s_len, p_len)
}

/// Whether `n` occurs anywhere in `h`.
pub fn contains_str(h: &str, n: &str) -> (r: bool)
    ensures
        r == spec_contains(h@, n@),
{
    let h_len = h.unicode_len();
    let n_len = n.unicode_len();
    if n_len > h_len {
        return false;
    }
    let last = h_len - n_len;
    let mut i: usize = 0;
    loop
        invariant
            h_len == h@.len(),
            n_len == n@.len(),
            n_len <= h_len,
            last == h_len - n_len,
            i <= last,
            forall|j: int| 0 <= j < i ==> !spec_matches_at(h@, n@, j),
        decreases last - i,
    {
        if matches_at(h, n, i, h_len, n_len) {
            return true;
        }
        if i == last {
            proof {
                assert(forall|j: int| 0 <= j <= last ==> !spec_matches_at(h@, n@, j));
                assert(forall|j: int| spec_matches_at(h@, n@, j) ==> 0 <= j <= h@.len()
                    - n@.len());
            }
            return false;
        }
        i = i + 1;
    }
}

} // verus!
