//! Character-level helpers shared by the text formats: white space,
//! trimming and searching.

use vstd::prelude::*;

verus! {

/// The characters of `s`, in order.
pub fn chars_of(s: &str) -> (r: Vec<char>)
    ensures
        r@ == s@,
{
    let mut out: Vec<char> = Vec::new();
    for c in it: s.chars()
        invariant
            out@ == it.history(),
    {
        out.push(c);
    }
    assert(out@ =~= s@);
    out
}

/// The characters that `char::is_whitespace` accepts (Unicode White_Space).
pub open spec fn is_space(c: char) -> bool {
    ||| c == ' '
    ||| c == '\t'
    ||| c == '\n'
    ||| c == '\x0B'
    ||| c == '\x0C'
    ||| c == '\r'
    ||| c == '\u{85}'
    ||| c == '\u{A0}'
    ||| c == '\u{1680}'
    ||| (0x2000 <= (c as u32) <= 0x200A)
    ||| c == '\u{2028}'
    ||| c == '\u{2029}'
    ||| c == '\u{202F}'
    ||| c == '\u{205F}'
    ||| c == '\u{3000}'
}

pub fn is_space_char(c: char) -> (r: bool)
    ensures
        r == is_space(c),
{
    let code = c as u32;
    c == ' ' || c == '\t' || c == '\n' || c == '\x0B' || c == '\x0C' || c == '\r' || c
        == '\u{85}' || c == '\u{A0}' || c == '\u{1680}' || (0x2000 <= code && code <= 0x200A) || c
        == '\u{2028}' || c == '\u{2029}' || c == '\u{202F}' || c == '\u{205F}' || c == '\u{3000}'
}

/// The first index in `lo..hi` that holds `c`, or `hi`.
pub open spec fn find(s: Seq<char>, c: char, lo: int, hi: int) -> int
    decreases hi - lo,
{
    if lo >= hi {
        hi
    } else if s[lo] == c {
        lo
    } else {
        find(s, c, lo + 1, hi)
    }
}

/// The first index in `lo..hi` that holds no white space, or `hi`.
pub open spec fn skip_space(s: Seq<char>, lo: int, hi: int) -> int
    decreases hi - lo,
{
    if lo >= hi || !is_space(s[lo]) {
        lo
    } else {
        skip_space(s, lo + 1, hi)
    }
}

/// The end of `lo..hi` once trailing white space is cut off.
pub open spec fn trim_end(s: Seq<char>, lo: int, hi: int) -> int
    decreases hi - lo,
{
    if hi <= lo || !is_space(s[hi - 1]) {
        hi
    } else {
        trim_end(s, lo, hi - 1)
    }
}

/// `s[lo..hi]` with white space cut off at both ends, as `str::trim` does.
pub open spec fn trimmed(s: Seq<char>, lo: int, hi: int) -> Seq<char> {
    let a = skip_space(s, lo, hi);
    s.subrange(a, trim_end(s, a, hi))
}

pub fn find_char(s: &Vec<char>, c: char, lo: usize, hi: usize) -> (r: usize)
    requires
        lo <= hi <= s@.len(),
    ensures
        r == find(s@, c, lo as int, hi as int),
        lo <= r <= hi,
{
    let mut i = lo;
    while i < hi && s[i] != c
        invariant
            lo <= i <= hi <= s@.len(),
            find(s@, c, lo as int, hi as int) == find(s@, c, i as int, hi as int),
        decreases hi - i,
    {
        i = i + 1;
    }
    i
}

/// The bounds of `s[lo..hi]` trimmed.
pub fn trim_bounds(s: &Vec<char>, lo: usize, hi: usize) -> (r: (usize, usize))
    requires
        lo <= hi <= s@.len(),
    ensures
        r.0 == skip_space(s@, lo as int, hi as int),
        r.1 == trim_end(s@, r.0 as int, hi as int),
        lo <= r.0 <= r.1 <= hi,
{
    let mut a = lo;
    while a < hi && is_space_char(s[a])
        invariant
            lo <= a <= hi <= s@.len(),
            skip_space(s@, lo as int, hi as int) == skip_space(s@, a as int, hi as int),
        decreases hi - a,
    {
        a = a + 1;
    }
    let mut b = hi;
    while b > a && is_space_char(s[b - 1])
        invariant
            lo <= a <= b <= hi <= s@.len(),
            trim_end(s@, a as int, hi as int) == trim_end(s@, a as int, b as int),
        decreases b - a,
    {
        b = b - 1;
    }
    (a, b)
}

} // verus!
