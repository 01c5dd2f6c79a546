//! Character-level helpers for the request-key machinery.
//!
//! Request parts and literals are `String`s viewed as `Seq<char>`; these
//! functions supply the searching and affix tests the virtual machine needs,
//! each proved against a direct spec-level definition.

use vstd::prelude::*;
use vstd::string::*;

verus! {

/// First index at or after `i` where `c` occurs in `s`, if any.
pub open spec fn find_char_from(s: Seq<char>, c: char, i: int) -> Option<int>
    decreases s.len() - i,
{
    if i < 0 || i >= s.len() {
        None
    } else if s[i] == c {
        Some(i)
    } else {
        find_char_from(s, c, i + 1)
    }
}

/// First index where `c` occurs in `s`, if any.
pub open spec fn find_char(s: Seq<char>, c: char) -> Option<int> {
    find_char_from(s, c, 0)
}

/// `p` is a prefix of `v`.
pub open spec fn seq_starts_with(v: Seq<char>, p: Seq<char>) -> bool {
    p.len() <= v.len() && v.subrange(0, p.len() as int) == p
}

/// `p` is a suffix of `v`.
pub open spec fn seq_ends_with(v: Seq<char>, p: Seq<char>) -> bool {
    p.len() <= v.len() && v.subrange(v.len() - p.len(), v.len() as int) == p
}

/// `p` occurs contiguously somewhere in `v`.
pub open spec fn seq_contains(v: Seq<char>, p: Seq<char>) -> bool {
    exists|i: int| 0 <= i <= v.len() - p.len() && #[trigger] v.subrange(i, i + p.len()) == p
}

/// Finds the first occurrence of the character `c` in `s`.
pub fn str_find_char(s: &str, c: char) -> (r: Option<usize>)
    ensures
        match r {
            Some(i) => find_char(s@, c) == Some(i as int),
            None => find_char(s@, c) is None,
        },
{
    let n: usize = s.unicode_len();
    let mut i: usize = 0;
    while i < n
        invariant
            0 <= i <= n,
            n == s@.len(),
            find_char(s@, c) == find_char_from(s@, c, i as int),
        decreases n - i,
    {
        if s.get_char(i) == c {
            return Some(i);
        }
        i = i + 1;
    }
    None
}

/// Whether the views of `a` and `b` are the same character sequence.
pub fn str_eq(a: &str, b: &str) -> (r: bool)
    ensures
        r == (a@ == b@),
{
    let an: usize = a.unicode_len();
    let bn: usize = b.unicode_len();
    if an != bn {
        return false;
    }
    let mut i: usize = 0;
    while i < an
        invariant
            0 <= i <= an,
            an == a@.len(),
            an == b@.len(),
            forall|j: int| 0 <= j < i ==> a@[j] == b@[j],
        decreases an - i,
    {
        if a.get_char(i) != b.get_char(i) {
            return false;
        }
        i = i + 1;
    }
    proof {
        assert(a@ =~= b@);
    }
    true
}

/// Whether `v` starts with `p`.
pub fn str_starts_with(v: &str, p: &str) -> (r: bool)
    ensures
        r == seq_starts_with(v@, p@),
{
    let vn: usize = v.unicode_len();
    let pn: usize = p.unicode_len();
    if pn > vn {
        return false;
    }
    let mut i: usize = 0;
    while i < pn
        invariant
            0 <= i <= pn,
            pn <= vn,
            vn == v@.len(),
            pn == p@.len(),
            forall|j: int| 0 <= j < i ==> v@[j] == p@[j],
        decreases pn - i,
    {
        if v.get_char(i) != p.get_char(i) {
            assert(v@.subrange(0, p@.len() as int)[i as int] != p@[i as int]);
            return false;
        }
        i = i + 1;
    }
    proof {
        assert(v@.subrange(0, p@.len() as int) =~= p@);
    }
    true
}

/// Whether `v` ends with `p`.
pub fn str_ends_with(v: &str, p: &str) -> (r: bool)
    ensures
        r == seq_ends_with(v@, p@),
{
    let vn: usize = v.unicode_len();
    let pn: usize = p.unicode_len();
    if pn > vn {
        return false;
    }
    let off: usize = vn - pn;
    let mut i: usize = 0;
    while i < pn
        invariant
            0 <= i <= pn,
            pn <= vn,
            off == vn - pn,
            vn == v@.len(),
            pn == p@.len(),
            forall|j: int| 0 <= j < i ==> v@[off + j] == p@[j],
        decreases pn - i,
    {
        if v.get_char(off + i) != p.get_char(i) {
            assert(v@.subrange(v@.len() - p@.len(), v@.len() as int)[i as int] != p@[i as int]);
            return false;
        }
        i = i + 1;
    }
    proof {
        assert(v@.subrange(v@.len() - p@.len(), v@.len() as int) =~= p@);
    }
    true
}

/// Whether `v` matches `p` at position `i`.
fn matches_at(v: &str, p: &str, i: usize) -> (r: bool)
    requires
        i + p@.len() <= v@.len(),
    ensures
        r == (v@.subrange(i as int, i + p@.len()) == p@),
{
    let vn: usize = v.unicode_len();
    let pn: usize = p.unicode_len();
    let mut k: usize = 0;
    while k < pn
        invariant
            0 <= k <= pn,
            pn == p@.len(),
            vn == v@.len(),
            i + pn <= vn,
            forall|j: int| 0 <= j < k ==> v@[i + j] == p@[j],
        decreases pn - k,
    {
        if v.get_char(i + k) != p.get_char(k) {
            assert(v@.subrange(i as int, i + p@.len())[k as int] != p@[k as int]);
            return false;
        }
        k = k + 1;
    }
    proof {
        assert(v@.subrange(i as int, i + p@.len()) =~= p@);
    }
    true
}

/// Whether `p` occurs contiguously somewhere in `v`.
pub fn str_contains(v: &str, p: &str) -> (r: bool)
    ensures
        r == seq_contains(v@, p@),
{
    let vn: usize = v.unicode_len();
    let pn: usize = p.unicode_len();
    if pn > vn {
        return false;
    }
    if pn == 0 {
        proof {
            assert(v@.subrange(0, 0 + p@.len() as int) =~= p@);
        }
        return true;
    }
    let last: usize = vn - pn;
    let mut i: usize = 0;
    while i <= last
        invariant
            0 <= i <= last + 1,
            last == vn - pn,
            0 < pn <= vn,
            vn == v@.len(),
            pn == p@.len(),
            forall|j: int| 0 <= j < i ==> #[trigger] v@.subrange(j, j + p@.len()) != p@,
        decreases last + 1 - i,
    {
        if matches_at(v, p, i) {
            return true;
        }
        i = i + 1;
    }
    false
}

/// Copies the character range `[from, to)` of `s` into an owned string.
pub fn str_slice_owned(s: &str, from: usize, to: usize) -> (r: String)
    requires
        from <= to <= s@.len(),
    ensures
        r@ == s@.subrange(from as int, to as int),
{
    s.substring_char(from, to).to_owned()
}

} // verus!
