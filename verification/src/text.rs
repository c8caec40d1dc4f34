//! Character-level text utilities shared by the parsing and formatting code.
//!
//! Text is handled as vectors of characters so that every scan, comparison
//! and slice is verified; `String` values only enter and leave at the edges.

use vstd::prelude::*;
use vstd::string::StrSliceExecFns;
use vstd::utf8::{decode_utf8, valid_utf8};

verus! {

/// Relies on `String::push`: appends exactly the given character.
#[verifier::external_body]
pub fn push_char(s: &mut String, c: char)
    ensures
        final(s)@ == old(s)@.push(c),
{
    s.push(c);
}

/// Relies on `std::str::from_utf8`: succeeds exactly on valid UTF-8 input,
/// and the resulting string slice holds the decoded characters of the bytes.
#[verifier::external_body]
pub fn utf8_decode(data: &[u8]) -> (r: Option<&str>)
    ensures
        r is Some <==> valid_utf8(data@),
        r matches Some(s) ==> s@ == decode_utf8(data@),
{
    std::str::from_utf8(data).ok()
}

/// The characters of a string slice, in order.
pub fn chars_of(s: &str) -> (v: Vec<char>)
    ensures
        v@ == s@,
{
    let n = s.unicode_len();
    let mut v: Vec<char> = Vec::new();
    let mut i: usize = 0;
    while i < n
        invariant
            i <= n,
            n == s@.len(),
            v@ == s@.subrange(0, i as int),
        decreases n - i,
    {
        let c = s.get_char(i);
        v.push(c);
        i = i + 1;
        assert(v@ =~= s@.subrange(0, i as int));
    }
    assert(v@ =~= s@);
    v
}

/// A string holding the characters `v[from..to]`, in order.
pub fn string_of_range(v: &Vec<char>, from: usize, to: usize) -> (s: String)
    requires
        from <= to <= v@.len(),
    ensures
        s@ == v@.subrange(from as int, to as int),
{
    let mut s = String::new();
    let mut i: usize = from;
    while i < to
        invariant
            from <= i <= to <= v@.len(),
            s@ == v@.subrange(from as int, i as int),
        decreases to - i,
    {
        push_char(&mut s, v[i]);
        i = i + 1;
        assert(s@ =~= v@.subrange(from as int, i as int));
    }
    s
}

/// A string holding all of `v`, in order.
pub fn string_of(v: &Vec<char>) -> (s: String)
    ensures
        s@ == v@,
{
    let s = string_of_range(v, 0, v.len());
    assert(v@.subrange(0, v@.len() as int) =~= v@);
    s
}

/// A vector holding the characters `v[from..to]`, in order.
pub fn slice_range(v: &Vec<char>, from: usize, to: usize) -> (r: Vec<char>)
    requires
        from <= to <= v@.len(),
    ensures
        r@ == v@.subrange(from as int, to as int),
{
    let mut r: Vec<char> = Vec::new();
    let mut i: usize = from;
    while i < to
        invariant
            from <= i <= to <= v@.len(),
            r@ == v@.subrange(from as int, i as int),
        decreases to - i,
    {
        r.push(v[i]);
        i = i + 1;
        assert(r@ =~= v@.subrange(from as int, i as int));
    }
    r
}

/// Appends the characters of `s` to `dst`.
pub fn append_str(dst: &mut Vec<char>, s: &str)
    ensures
        final(dst)@ == old(dst)@ + s@,
{
    let n = s.unicode_len();
    let mut j: usize = 0;
    while j < n
        invariant
            j <= n,
            n == s@.len(),
            dst@ == old(dst)@ + s@.subrange(0, j as int),
        decreases n - j,
    {
        let c = s.get_char(j);
        dst.push(c);
        j = j + 1;
        assert(dst@ =~= old(dst)@ + s@.subrange(0, j as int));
    }
    assert(dst@ =~= old(dst)@ + s@);
}

/// Appends the characters of `src` to `dst`.
pub fn append_vec(dst: &mut Vec<char>, src: &Vec<char>)
    ensures
        final(dst)@ == old(dst)@ + src@,
{
    let n = src.len();
    let mut j: usize = 0;
    while j < n
        invariant
            j <= n,
            n == src@.len(),
            dst@ == old(dst)@ + src@.subrange(0, j as int),
        decreases n - j,
    {
        dst.push(src[j]);
        j = j + 1;
        assert(dst@ =~= old(dst)@ + src@.subrange(0, j as int));
    }
    assert(dst@ =~= old(dst)@ + src@);
}

/// The first position `>= from` holding `c`, if any.
pub open spec fn spec_find_char(s: Seq<char>, c: char, from: int) -> Option<int>
    decreases s.len() - from
{
    if from < 0 || from >= s.len() {
        None
    } else if s[from] == c {
        Some(from)
    } else {
        spec_find_char(s, c, from + 1)
    }
}

/// A found character position lies between `from` and the end, and holds `c`.
pub proof fn lemma_find_char_range(s: Seq<char>, c: char, from: int)
    requires
        spec_find_char(s, c, from) is Some,
    ensures
        from <= spec_find_char(s, c, from)->0 < s.len(),
        s[spec_find_char(s, c, from)->0] == c,
    decreases s.len() - from,
{
    if !(from < 0 || from >= s.len()) && s[from] != c {
        lemma_find_char_range(s, c, from + 1);
    }
}

/// Finds the first occurrence of `c` in `v` at or after `from`.
pub fn find_char(v: &Vec<char>, c: char, from: usize) -> (r: Option<usize>)
    requires
        from <= v@.len(),
    ensures
        r matches Some(i) ==> spec_find_char(v@, c, from as int) == Some(i as int) && i < v@.len(),
        r is None ==> spec_find_char(v@, c, from as int) is None,
    decreases v@.len() - from,
{
    if from >= v.len() {
        None
    } else if v[from] == c {
        Some(from)
    } else {
        find_char(v, c, from + 1)
    }
}

/// True when `pat` occurs in `s` starting exactly at `i`.
pub open spec fn prefix_at(s: Seq<char>, i: int, pat: Seq<char>) -> bool {
    0 <= i && i + pat.len() <= s.len() && s.subrange(i, i + pat.len()) == pat
}

/// The first position `>= from` where `pat` occurs, if any.
pub open spec fn spec_find_sub(s: Seq<char>, pat: Seq<char>, from: int) -> Option<int>
    decreases s.len() - from
{
    if from < 0 || from + pat.len() > s.len() {
        None
    } else if pat.len() == 0 || prefix_at(s, from, pat) {
        Some(from)
    } else {
        spec_find_sub(s, pat, from + 1)
    }
}

/// Compares `v[i..i + pat.len()]` with the characters of `pat`.
fn matches_at(v: &Vec<char>, i: usize, pat: &str) -> (r: bool)
    requires
        i + pat@.len() <= v@.len(),
    ensures
        r == prefix_at(v@, i as int, pat@),
{
    let n = pat.unicode_len();
    let vlen = v.len();
    let mut j: usize = 0;
    while j < n
        invariant
            j <= n,
            n == pat@.len(),
            vlen == v@.len(),
            i + n <= vlen,
            forall|k: int| 0 <= k < j ==> v@[i + k] == pat@[k],
        decreases n - j,
    {
        if v[i + j] != pat.get_char(j) {
            assert(v@.subrange(i as int, i + pat@.len()) != pat@) by {
                assert(v@.subrange(i as int, i + pat@.len())[j as int] != pat@[j as int]);
            }
            return false;
        }
        j = j + 1;
    }
    assert(v@.subrange(i as int, i + pat@.len()) =~= pat@);
    true
}

/// Finds the first occurrence of `pat` in `v` at or after `from`.
pub fn find_sub(v: &Vec<char>, pat: &str, from: usize) -> (r: Option<usize>)
    requires
        from <= v@.len(),
    ensures
        r matches Some(i) ==> spec_find_sub(v@, pat@, from as int) == Some(i as int),
        r is None ==> spec_find_sub(v@, pat@, from as int) is None,
        r matches Some(i) ==> from <= i && i + pat@.len() <= v@.len(),
    decreases v@.len() - from,
{
    let n = pat.unicode_len();
    if n > v.len() || from > v.len() - n {
        None
    } else if matches_at(v, from, pat) {
        Some(from)
    } else {
        proof {
            assert(pat@.len() > 0) by {
                if pat@.len() == 0 {
                    assert(v@.subrange(from as int, from as int) =~= pat@);
                }
            }
        }
        find_sub(v, pat, from + 1)
    }
}

/// The uppercase code of an ASCII letter; any other character's code unchanged.
pub open spec fn spec_upper_code(c: char) -> u32 {
    if 97 <= c as u32 && c as u32 <= 122 {
        (c as u32 - 32) as u32
    } else {
        c as u32
    }
}

/// Computes the case-folded comparison code of one character.
fn upper_code(c: char) -> (r: u32)
    ensures
        r == spec_upper_code(c),
{
    let u = c as u32;
    if 97 <= u && u <= 122 {
        u - 32
    } else {
        u
    }
}

/// True when `pat` occurs at the start of `s` up to ASCII letter case.
pub open spec fn prefix_ci(s: Seq<char>, pat: Seq<char>) -> bool {
    pat.len() <= s.len() && forall|k: int|
        0 <= k < pat.len() ==> spec_upper_code(s[k]) == spec_upper_code(pat[k])
}

/// Compares the start of `v` with `pat`, ignoring ASCII letter case.
pub fn starts_with_ci(v: &Vec<char>, pat: &str) -> (r: bool)
    ensures
        r == prefix_ci(v@, pat@),
{
    let n = pat.unicode_len();
    if n > v.len() {
        return false;
    }
    let mut j: usize = 0;
    while j < n
        invariant
            j <= n,
            n == pat@.len(),
            n <= v@.len(),
            forall|k: int| 0 <= k < j ==> spec_upper_code(v@[k]) == spec_upper_code(pat@[k]),
        decreases n - j,
    {
        if upper_code(v[j]) != upper_code(pat.get_char(j)) {
            return false;
        }
        j = j + 1;
    }
    true
}

/// True when `pat` occurs at the start of `s` exactly.
pub open spec fn starts_with(s: Seq<char>, pat: Seq<char>) -> bool {
    prefix_at(s, 0, pat)
}

/// Compares the start of `v` with `pat`.
pub fn starts_with_exact(v: &Vec<char>, pat: &str) -> (r: bool)
    ensures
        r == starts_with(v@, pat@),
{
    let n = pat.unicode_len();
    if n > v.len() {
        return false;
    }
    matches_at(v, 0, pat)
}

/// Compares all of `v` with the characters of `s`.
pub fn eq_str(v: &Vec<char>, s: &str) -> (r: bool)
    ensures
        r == (v@ == s@),
{
    let n = s.unicode_len();
    if v.len() != n {
        assert(v@ != s@) by {
            assert(v@.len() != s@.len());
        }
        return false;
    }
    let r = matches_at(v, 0, s);
    assert(v@.subrange(0, v@.len() as int) =~= v@);
    r
}

/// The whitespace characters stripped from line ends: space, tab, carriage
/// return and line feed.
pub open spec fn is_space(c: char) -> bool {
    c == ' ' || c == '\t' || c == '\r' || c == '\n'
}

/// Tests one character for the whitespace set.
fn is_space_exec(c: char) -> (r: bool)
    ensures
        r == is_space(c),
{
    c == ' ' || c == '\t' || c == '\r' || c == '\n'
}

/// `s` without leading and trailing whitespace: the subrange from the first
/// non-space character to just past the last one.
pub open spec fn spec_trim(s: Seq<char>) -> Seq<char> {
    let lo = choose|lo: int|
        is_trim_lo(s, lo);
    let hi = choose|hi: int| is_trim_hi(s, hi);
    if exists|i: int| 0 <= i < s.len() && !is_space(s[i]) {
        s.subrange(lo, hi)
    } else {
        Seq::empty()
    }
}

/// `lo` is the index of the first non-space character of `s`.
pub open spec fn is_trim_lo(s: Seq<char>, lo: int) -> bool {
    0 <= lo < s.len() && !is_space(s[lo]) && forall|j: int| 0 <= j < lo ==> is_space(s[j])
}

/// `hi` is one past the index of the last non-space character of `s`.
pub open spec fn is_trim_hi(s: Seq<char>, hi: int) -> bool {
    0 < hi <= s.len() && !is_space(s[hi - 1]) && forall|j: int| hi <= j < s.len() ==> is_space(s[j])
}

/// Strips leading and trailing whitespace from `v`.
pub fn trim(v: &Vec<char>) -> (r: Vec<char>)
    ensures
        r@ == spec_trim(v@),
{
    let n = v.len();
    let mut lo: usize = 0;
    while lo < n && is_space_exec(v[lo])
        invariant
            lo <= n,
            n == v@.len(),
            forall|j: int| 0 <= j < lo ==> is_space(v@[j]),
        decreases n - lo,
    {
        lo = lo + 1;
    }
    if lo == n {
        assert(forall|i: int| 0 <= i < v@.len() ==> is_space(v@[i]));
        assert(spec_trim(v@) =~= Seq::<char>::empty());
        return Vec::new();
    }
    let mut hi: usize = n;
    while hi > lo && is_space_exec(v[hi - 1])
        invariant
            lo <= hi <= n,
            n == v@.len(),
            lo < n,
            !is_space(v@[lo as int]),
            forall|j: int| hi <= j < n ==> is_space(v@[j]),
        decreases hi,
    {
        hi = hi - 1;
    }
    assert(is_trim_lo(v@, lo as int));
    assert(is_trim_hi(v@, hi as int));
    proof {
        let lo0 = choose|l: int| is_trim_lo(v@, l);
        let hi0 = choose|h: int| is_trim_hi(v@, h);
        assert(is_trim_lo(v@, lo0));
        assert(is_trim_hi(v@, hi0));
        assert(lo0 == lo as int);
        assert(hi0 == hi as int);
    }
    slice_range(v, lo, hi)
}

} // verus!
