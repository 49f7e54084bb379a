//! ASCII case-insensitive character and substring comparison, used to match
//! format hints in the program name and to compare file extensions.

use vstd::prelude::*;

verus! {

/// The code point of `c` with an ASCII upper-case letter folded to lower case.
pub open spec fn lower_code(c: char) -> int {
    if 65 <= c as int && c as int <= 90 {
        c as int + 32
    } else {
        c as int
    }
}

/// Two characters are equal up to ASCII case.
pub open spec fn chars_eq_ci(a: char, b: char) -> bool {
    lower_code(a) == lower_code(b)
}

/// Two character sequences are equal up to ASCII case.
pub open spec fn seq_eq_ci(a: Seq<char>, b: Seq<char>) -> bool {
    a.len() == b.len() && forall|i: int| 0 <= i < a.len() ==> chars_eq_ci(a[i], b[i])
}

/// `needle` occurs in `haystack` at position `i`, up to ASCII case.
pub open spec fn matches_at_ci(haystack: Seq<char>, needle: Seq<char>, i: int) -> bool {
    0 <= i && i + needle.len() <= haystack.len() && seq_eq_ci(
        haystack.subrange(i, i + needle.len() as int),
        needle,
    )
}

/// `needle` occurs somewhere in `haystack`, up to ASCII case.
pub open spec fn contains_ci(haystack: Seq<char>, needle: Seq<char>) -> bool {
    exists|i: int| matches_at_ci(haystack, needle, i)
}

/// Compare two characters up to ASCII case.
pub fn char_eq_ci(a: char, b: char) -> (r: bool)
    ensures
        r == chars_eq_ci(a, b),
{
    let x = a as u32;
    let y = b as u32;
    let xl: u32 = if 65 <= x && x <= 90 {
        x + 32
    } else {
        x
    };
    let yl: u32 = if 65 <= y && y <= 90 {
        y + 32
    } else {
        y
    };
    xl == yl
}

/// Compare two strings up to ASCII case.
pub fn str_eq_ci(a: &str, b: &str) -> (r: bool)
    ensures
        r == seq_eq_ci(a@, b@),
{
    let n = a.unicode_len();
    if n != b.unicode_len() {
        return false;
    }
    let mut i: usize = 0;
    while i < n
        invariant
            n == a@.len(),
            n == b@.len(),
            i <= n,
            forall|j: int| 0 <= j < i ==> chars_eq_ci(a@[j], b@[j]),
        decreases n - i,
    {
        if !char_eq_ci(a.get_char(i), b.get_char(i)) {
            return false;
        }
        i = i + 1;
    }
    true
}

/// `needle` occurs at position `at` of `haystack`, up to ASCII case.
pub fn matches_at(haystack: &str, needle: &str, at: usize) -> (r: bool)
    requires
        at + needle@.len() <= haystack@.len(),
    ensures
        r == matches_at_ci(haystack@, needle@, at as int),
{
    let n = haystack.unicode_len();
    let m = needle.unicode_len();
    let mut i: usize = 0;
    while i < m
        invariant
            n == haystack@.len(),
            m == needle@.len(),
            at + m <= n,
            i <= m,
            forall|j: int| 0 <= j < i ==> chars_eq_ci(haystack@[at + j], needle@[j]),
        decreases m - i,
    {
        if !char_eq_ci(haystack.get_char(at + i), needle.get_char(i)) {
            assert(!seq_eq_ci(haystack@.subrange(at as int, at + m), needle@)) by {
                assert(haystack@.subrange(at as int, at + m)[i as int] == haystack@[at + i]);
            }
            return false;
        }
        i = i + 1;
    }
    assert(seq_eq_ci(haystack@.subrange(at as int, at + m), needle@)) by {
        assert(forall|j: int|
            0 <= j < m ==> #[trigger] haystack@.subrange(at as int, at + m)[j] == haystack@[at + j]);
    }
    true
}

/// `needle` occurs somewhere in `haystack`, up to ASCII case.
pub fn str_contains_ci(haystack: &str, needle: &str) -> (r: bool)
    ensures
        r == contains_ci(haystack@, needle@),
{
    let n = haystack.unicode_len();
    let m = needle.unicode_len();
    if m > n {
        assert(forall|i: int| !matches_at_ci(haystack@, needle@, i));
        return false;
    }
    let mut at: usize = 0;
    while at <= n - m
        invariant
            n == haystack@.len(),
            m == needle@.len(),
            m <= n,
            at <= n - m + 1,
            forall|j: int| 0 <= j < at ==> !matches_at_ci(haystack@, needle@, j),
        decreases n - m + 1 - at,
    {
        if matches_at(haystack, needle, at) {
            return true;
        }
        at = at + 1;
    }
    assert(forall|i: int| !matches_at_ci(haystack@, needle@, i)) by {
        assert(forall|i: int| i > n - m ==> !matches_at_ci(haystack@, needle@, i));
    }
    false
}

} // verus!
