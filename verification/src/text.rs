//! Text helpers: UTF-16 encoding for wide-string OS interfaces,
//! ASCII-case-insensitive comparison, and substring search.

use vstd::prelude::*;

verus! {

/// The UTF-16 code units of one character: the scalar value itself when it
/// lies in the basic plane, otherwise a high and a low surrogate.
pub open spec fn utf16_of_char(c: char) -> Seq<u16> {
    let n = c as u32 as int;
    if n < 0x10000 {
        seq![n as u16]
    } else {
        seq![(0xD800 + (n - 0x10000) / 0x400) as u16, (0xDC00 + (n - 0x10000) % 0x400) as u16]
    }
}

/// The UTF-16 encoding of a sequence of characters.
pub open spec fn utf16_units(s: Seq<char>) -> Seq<u16>
    decreases s.len(),
{
    if s.len() == 0 {
        Seq::empty()
    } else {
        utf16_units(s.drop_last()) + utf16_of_char(s.last())
    }
}

/// Encodes `s` as UTF-16.
pub fn encode_utf16(s: &str) -> (units: Vec<u16>)
    ensures
        units@ == utf16_units(s@),
{
    let mut units: Vec<u16> = Vec::new();
    for c in it: s.chars()
        invariant
            it.seq() == s@,
            units@ == utf16_units(s@.take(it.index() as int)),
    {
        proof {
            let i = it.index() as int;
            assert(s@.take(i + 1).drop_last() == s@.take(i));
            assert(s@.take(i + 1).last() == c);
        }
        let n: u32 = c as u32;
        if n < 0x10000 {
            units.push(n as u16);
        } else {
            let m: u32 = n - 0x10000;
            units.push((0xD800 + m / 0x400) as u16);
            units.push((0xDC00 + m % 0x400) as u16);
        }
    }
    proof {
        assert(s@.take(s@.len() as int) == s@);
    }
    units
}

/// A text as the wide-string OS interfaces take it: UTF-16 with a
/// terminating zero unit.
pub open spec fn wide(s: Seq<char>) -> Seq<u16> {
    utf16_units(s).push(0u16)
}

/// Encodes `s` as UTF-16 and appends the terminating zero unit.
pub fn to_wide(s: &str) -> (units: Vec<u16>)
    ensures
        units@ == wide(s@),
{
    let mut units = encode_utf16(s);
    units.push(0u16);
    units
}

/// The characters of `s`, one element each.
pub fn chars_of(s: &str) -> (chars: Vec<char>)
    ensures
        chars@ == s@,
{
    let mut chars: Vec<char> = Vec::new();
    for c in it: s.chars()
        invariant
            it.seq() == s@,
            chars@ == s@.take(it.index() as int),
    {
        chars.push(c);
    }
    proof {
        assert(s@.take(s@.len() as int) == s@);
    }
    chars
}

/// The scalar value of `c` with the ASCII capitals `A`..`Z` mapped to
/// `a`..`z`; every other character keeps its own value.
pub open spec fn ascii_fold(c: char) -> int {
    let n = c as u32 as int;
    if 0x41 <= n <= 0x5A {
        n + 0x20
    } else {
        n
    }
}

/// Two texts are equal up to the case of their ASCII letters.
pub open spec fn same_ignoring_ascii_case(a: Seq<char>, b: Seq<char>) -> bool {
    &&& a.len() == b.len()
    &&& forall|i: int| 0 <= i < a.len() ==> ascii_fold(#[trigger] a[i]) == ascii_fold(b[i])
}

/// `needle` occurs in `haystack` as a run of consecutive characters.
pub open spec fn is_substring(needle: Seq<char>, haystack: Seq<char>) -> bool {
    exists|start: int|
        0 <= start <= haystack.len() - needle.len() && #[trigger] haystack.subrange(
            start,
            start + needle.len(),
        ) == needle
}

fn fold_char(c: char) -> (n: u32)
    ensures
        n == ascii_fold(c),
{
    let n: u32 = c as u32;
    if 0x41 <= n && n <= 0x5A {
        n + 0x20
    } else {
        n
    }
}

/// Compares two texts, ignoring the case of ASCII letters only.
pub fn eq_ignore_ascii_case(a: &str, b: &str) -> (same: bool)
    ensures
        same == same_ignoring_ascii_case(a@, b@),
{
    let left = chars_of(a);
    let right = chars_of(b);
    if left.len() != right.len() {
        return false;
    }
    let mut i: usize = 0;
    while i < left.len()
        invariant
            left@ == a@,
            right@ == b@,
            left.len() == right.len(),
            i <= left.len(),
            forall|k: int| 0 <= k < i ==> ascii_fold(#[trigger] a@[k]) == ascii_fold(b@[k]),
        decreases left.len() - i,
    {
        if fold_char(left[i]) != fold_char(right[i]) {
            return false;
        }
        i += 1;
    }
    true
}

/// Whether `needle` occurs somewhere in `haystack`, character for
/// character. The empty needle occurs in every text.
pub fn contains(haystack: &str, needle: &str) -> (found: bool)
    ensures
        found == is_substring(needle@, haystack@),
{
    let hay = chars_of(haystack);
    let pat = chars_of(needle);
    if pat.len() > hay.len() {
        return false;
    }
    let last: usize = hay.len() - pat.len();
    let mut start: usize = 0;
    while start <= last
        invariant
            hay@ == haystack@,
            pat@ == needle@,
            pat.len() <= hay.len(),
            last == hay.len() - pat.len(),
            start <= last + 1,
            forall|s: int|
                0 <= s < start ==> #[trigger] hay@.subrange(s, s + pat.len()) != pat@,
        decreases last + 1 - start,
    {
        let mut k: usize = 0;
        while k < pat.len() && hay[start + k] == pat[k]
            invariant
                pat.len() <= hay.len(),
                last == hay.len() - pat.len(),
                start <= last,
                k <= pat.len(),
                forall|j: int| 0 <= j < k ==> hay@[start + j] == #[trigger] pat@[j],
            decreases pat.len() - k,
        {
            k += 1;
        }
        if k == pat.len() {
            proof {
                assert(hay@.subrange(start as int, start + pat.len()) =~= pat@);
            }
            return true;
        }
        proof {
            let window = hay@.subrange(start as int, start + pat.len());
            assert(window[k as int] == hay@[start + k]);
            assert(window != pat@);
        }
        start += 1;
    }
    false
}

} // verus!
