//! Character-sequence helpers shared by the rest of the crate: prefix tests,
//! substring containment, and ASCII case-insensitive comparison.

use vstd::prelude::*;
use vstd::string::StrSliceExecFns;

verus! {

/// `needle` stands at the front of `hay`.
pub open spec fn is_prefix_of(needle: Seq<char>, hay: Seq<char>) -> bool {
    needle.len() <= hay.len() && hay.subrange(0, needle.len() as int) == needle
}

/// `needle` occurs in `hay` starting at position `i`.
pub open spec fn contains_at(hay: Seq<char>, needle: Seq<char>, i: int) -> bool {
    0 <= i && i + needle.len() <= hay.len() && hay.subrange(i, i + needle.len()) == needle
}

/// `needle` occurs somewhere in `hay`.
pub open spec fn seq_contains(hay: Seq<char>, needle: Seq<char>) -> bool {
    exists|i: int| contains_at(hay, needle, i)
}

/// The code point of `c` with an ASCII upper-case letter folded to lower case.
pub open spec fn lower_code(c: char) -> int {
    if 'A' <= c && c <= 'Z' {
        c as int + 32
    } else {
        c as int
    }
}

/// `a` and `b` are equal up to ASCII case.
pub open spec fn eq_ignore_ascii_case(a: Seq<char>, b: Seq<char>) -> bool {
    a.len() == b.len() && forall|i: int| 0 <= i < a.len() ==> lower_code(a[i]) == lower_code(b[i])
}

/// Whether `needle` stands at the front of `hay`.
pub fn str_starts_with(hay: &str, needle: &str) -> (r: bool)
    ensures
        r == is_prefix_of(needle@, hay@),
{
    let n: usize = needle.unicode_len();
    let h: usize = hay.unicode_len();
    if n > h {
        return false;
    }
    let mut i: usize = 0;
    while i < n
        invariant
            0 <= i <= n,
            n == needle@.len(),
            n <= h == hay@.len(),
            forall|j: int| 0 <= j < i ==> hay@[j] == needle@[j],
        decreases n - i,
    {
        if hay.get_char(i) != needle.get_char(i) {
            assert(hay@.subrange(0, n as int)[i as int] != needle@[i as int]);
            return false;
        }
        i = i + 1;
    }
    assert(hay@.subrange(0, n as int) =~= needle@);
    true
}

/// Whether `needle` occurs in `hay` starting at position `at`.
fn matches_at(hay: &str, needle: &str, at: usize) -> (r: bool)
    requires
        at + needle@.len() <= hay@.len(),
        hay@.len() <= usize::MAX,
    ensures
        r == contains_at(hay@, needle@, at as int),
{
    let n: usize = needle.unicode_len();
    let mut i: usize = 0;
    while i < n
        invariant
            0 <= i <= n,
            n == needle@.len(),
            at + n <= hay@.len() <= usize::MAX,
            forall|j: int| 0 <= j < i ==> hay@[at + j] == needle@[j],
        decreases n - i,
    {
        if hay.get_char(at + i) != needle.get_char(i) {
            assert(hay@.subrange(at as int, at + n)[i as int] != needle@[i as int]);
            return false;
        }
        i = i + 1;
    }
    assert(hay@.subrange(at as int, at + n) =~= needle@);
    true
}

/// Whether `needle` occurs somewhere in `hay`.
pub fn str_contains(hay: &str, needle: &str) -> (r: bool)
    ensures
        r == seq_contains(hay@, needle@),
{
    let n: usize = needle.unicode_len();
    let h: usize = hay.unicode_len();
    if n > h {
        assert(forall|i: int| !contains_at(hay@, needle@, i));
        return false;
    }
    if n == 0 {
        assert(hay@.subrange(0, 0) =~= needle@);
        assert(contains_at(hay@, needle@, 0));
        return true;
    }
    let mut at: usize = 0;
    while at <= h - n
        invariant
            0 <= at <= h - n + 1,
            n == needle@.len(),
            1 <= n <= h == hay@.len(),
            forall|i: int| 0 <= i < at ==> !contains_at(hay@, needle@, i),
        decreases h + 1 - n - at,
    {
        if matches_at(hay, needle, at) {
            return true;
        }
        at = at + 1;
    }
    assert(forall|i: int| !contains_at(hay@, needle@, i));
    false
}

/// Whether two strings hold the same characters.
pub fn str_eq(a: &str, b: &str) -> (r: bool)
    ensures
        r == (a@ == b@),
{
    let an: usize = a.unicode_len();
    let bn: usize = b.unicode_len();
    if an != bn {
        return false;
    }
    let mut i: usize = 0;
    while i < an
        invariant
            0 <= i <= an,
            an == a@.len() == b@.len(),
            forall|j: int| 0 <= j < i ==> a@[j] == b@[j],
        decreases an - i,
    {
        if a.get_char(i) != b.get_char(i) {
            return false;
        }
        i = i + 1;
    }
    proof {
        assert(a@ =~= b@);
    }
    true
}

/// Find the first occurrence of `needle` in `hay`, if any.
pub fn find_str(hay: &str, needle: &str) -> (r: Option<usize>)
    ensures
        match r {
            Some(i) => contains_at(hay@, needle@, i as int) && forall|j: int|
                0 <= j < i ==> !contains_at(hay@, needle@, j),
            None => forall|j: int| !contains_at(hay@, needle@, j),
        },
{
    let n: usize = needle.unicode_len();
    let h: usize = hay.unicode_len();
    if n > h {
        assert(forall|j: int| !contains_at(hay@, needle@, j));
        return None;
    }
    if n == 0 {
        assert(hay@.subrange(0, 0) =~= needle@);
        assert(contains_at(hay@, needle@, 0));
        return Some(0);
    }
    let mut at: usize = 0;
    while at <= h - n
        invariant
            0 <= at <= h - n + 1,
            n == needle@.len(),
            1 <= n <= h == hay@.len(),
            forall|j: int| 0 <= j < at ==> !contains_at(hay@, needle@, j),
        decreases h + 1 - n - at,
    {
        if matches_at(hay, needle, at) {
            return Some(at);
        }
        at = at + 1;
    }
    assert(forall|j: int| !contains_at(hay@, needle@, j));
    None
}

/// Whether `a` equals `b` up to ASCII case.
pub fn str_eq_ignore_ascii_case(a: &str, b: &str) -> (r: bool)
    ensures
        r == eq_ignore_ascii_case(a@, b@),
{
    let an: usize = a.unicode_len();
    let bn: usize = b.unicode_len();
    if an != bn {
        return false;
    }
    let mut i: usize = 0;
    while i < an
        invariant
            0 <= i <= an,
            an == a@.len() == b@.len(),
            forall|j: int| 0 <= j < i ==> lower_code(a@[j]) == lower_code(b@[j]),
        decreases an - i,
    {
        let ac = a.get_char(i);
        let bc = b.get_char(i);
        let al: u32 = if 'A' <= ac && ac <= 'Z' {
            ac as u32 + 32
        } else {
            ac as u32
        };
        let bl: u32 = if 'A' <= bc && bc <= 'Z' {
            bc as u32 + 32
        } else {
            bc as u32
        };
        if al != bl {
            return false;
        }
        i = i + 1;
    }
    true
}

} // verus!
