//! Character-sequence utilities shared by the filters.
//!
//! The filters model text as a `Seq<char>`; this module supplies the
//! conversions between `&str` / `String` and `Vec<char>`, string equality,
//! and the generic "first occurrence" scans that the span grammars build on.

use vstd::prelude::*;

verus! {

use vstd::string::StrSliceExecFns;
use vstd::string::StringExecFns;

/// Relies on std's `String::push`, which appends the given character to the
/// end of the string.
pub assume_specification[ String::push ](s: &mut String, c: char)
    ensures
        final(s)@ == old(s)@.push(c),
;

/// The characters of `s`, as a vector.
pub fn chars_of(s: &str) -> (r: Vec<char>)
    ensures
        r@ == s@,
{
    let n = s.unicode_len();
    let mut r: Vec<char> = Vec::new();
    let mut i: usize = 0;
    while i < n
        invariant
            i <= n,
            n == s@.len(),
            r@ == s@.subrange(0, i as int),
        decreases n - i,
    {
        r.push(s.get_char(i));
        proof {
            assert(r@ =~= s@.subrange(0, i + 1));
        }
        i += 1;
    }
    proof {
        assert(s@.subrange(0, n as int) =~= s@);
    }
    r
}

/// The characters of `v`, as a string.
pub fn string_of(v: &Vec<char>) -> (r: String)
    ensures
        r@ == v@,
{
    let mut r = String::new();
    let mut i: usize = 0;
    while i < v.len()
        invariant
            i <= v.len(),
            r@ == v@.subrange(0, i as int),
        decreases v.len() - i,
    {
        r.push(v[i]);
        proof {
            assert(r@ =~= v@.subrange(0, i + 1));
        }
        i += 1;
    }
    proof {
        assert(v@.subrange(0, v.len() as int) =~= v@);
    }
    r
}

/// Whether two string slices hold the same characters.
pub fn str_eq(a: &str, b: &str) -> (r: bool)
    ensures
        r == (a@ == b@),
{
    let sa = String::from_str(a);
    let sb = String::from_str(b);
    sa == sb
}

/// Appends the characters of `s` to `out`.
pub fn push_lit(out: &mut Vec<char>, s: &str)
    ensures
        final(out)@ == old(out)@ + s@,
{
    let n = s.unicode_len();
    let mut i: usize = 0;
    while i < n
        invariant
            i <= n,
            n == s@.len(),
            out@ == old(out)@ + s@.subrange(0, i as int),
        decreases n - i,
    {
        out.push(s.get_char(i));
        proof {
            assert(out@ =~= old(out)@ + s@.subrange(0, i + 1));
        }
        i += 1;
    }
    proof {
        assert(old(out)@ + s@.subrange(0, n as int) =~= old(out)@ + s@);
    }
}

/// Appends `v[a..b]` to `out`.
pub fn push_range(out: &mut Vec<char>, v: &Vec<char>, a: usize, b: usize)
    requires
        a <= b <= v.len(),
    ensures
        final(out)@ == old(out)@ + v@.subrange(a as int, b as int),
{
    let mut i: usize = a;
    while i < b
        invariant
            a <= i <= b <= v.len(),
            out@ == old(out)@ + v@.subrange(a as int, i as int),
        decreases b - i,
    {
        out.push(v[i]);
        proof {
            assert(out@ =~= old(out)@ + v@.subrange(a as int, i + 1));
        }
        i += 1;
    }
}

/// The first index at or after `i` where the character `c` occurs, if any.
pub open spec fn find1(s: Seq<char>, i: int, c: char) -> Option<int>
    decreases s.len() - i,
{
    if i >= s.len() {
        None
    } else if s[i] == c {
        Some(i)
    } else {
        find1(s, i + 1, c)
    }
}

/// The first index at or after `i` where the two-character pattern `a b`
/// occurs, if any.
pub open spec fn find2(s: Seq<char>, i: int, a: char, b: char) -> Option<int>
    decreases s.len() - i,
{
    if i + 2 > s.len() {
        None
    } else if s[i] == a && s[i + 1] == b {
        Some(i)
    } else {
        find2(s, i + 1, a, b)
    }
}

/// Scans for the first occurrence of `c` at or after `i`.
pub fn find1_exec(v: &Vec<char>, i: usize, c: char) -> (r: Option<usize>)
    requires
        i <= v.len(),
    ensures
        match r {
            Some(q) => find1(v@, i as int, c) == Some(q as int) && i <= q < v.len() && v@[q as int]
                == c && (forall|k: int| i <= k < q ==> v@[k] != c),
            None => find1(v@, i as int, c) is None && (forall|k: int|
                i <= k < v@.len() ==> v@[k] != c),
        },
{
    let n = v.len();
    let mut j: usize = i;
    while j < n
        invariant
            i <= j <= n,
            n == v@.len(),
            find1(v@, i as int, c) == find1(v@, j as int, c),
            forall|k: int| i <= k < j ==> v@[k] != c,
        decreases n - j,
    {
        if v[j] == c {
            return Some(j);
        }
        proof {
            assert(find1(v@, j as int, c) == find1(v@, j + 1, c));
        }
        j += 1;
    }
    None
}

/// Scans for the first occurrence of the pattern `a b` at or after `i`.
pub fn find2_exec(v: &Vec<char>, i: usize, a: char, b: char) -> (r: Option<usize>)
    requires
        i <= v.len(),
    ensures
        match r {
            Some(q) => find2(v@, i as int, a, b) == Some(q as int) && i <= q && q + 2 <= v.len()
                && v@[q as int] == a && v@[q as int + 1] == b,
            None => find2(v@, i as int, a, b) is None,
        },
{
    let n = v.len();
    let mut j: usize = i;
    while j < n
        invariant
            i <= j <= n,
            n == v@.len(),
            find2(v@, i as int, a, b) == find2(v@, j as int, a, b),
        decreases n - j,
    {
        if j + 1 == n {
            return None;
        }
        if v[j] == a && v[j + 1] == b {
            return Some(j);
        }
        proof {
            assert(find2(v@, j as int, a, b) == find2(v@, j + 1, a, b));
        }
        j += 1;
    }
    None
}

} // verus!
