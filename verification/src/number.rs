//! Reading a whole number from text, as the saved state of the bot holds it.

use vstd::prelude::*;
use crate::text::digit_value;

verus! {

/// Whether a character is white space.
pub open spec fn is_space(c: char) -> bool {
    let n = c as u32;
    n == 0x20 || (0x09 <= n && n <= 0x0d) || n == 0x85 || n == 0xa0 || n == 0x1680 || (0x2000 <= n
        && n <= 0x200a) || n == 0x2028 || n == 0x2029 || n == 0x202f || n == 0x205f || n == 0x3000
}

/// A text without the white space it begins with.
pub open spec fn trim_start(s: Seq<char>) -> Seq<char>
    decreases s.len(),
{
    if s.len() > 0 && is_space(s[0]) {
        trim_start(s.drop_first())
    } else {
        s
    }
}

/// A text without the white space it ends with.
pub open spec fn trim_end(s: Seq<char>) -> Seq<char>
    decreases s.len(),
{
    if s.len() > 0 && is_space(s.last()) {
        trim_end(s.drop_last())
    } else {
        s
    }
}

/// A text without the white space around it.
pub open spec fn trimmed(s: Seq<char>) -> Seq<char> {
    trim_end(trim_start(s))
}

/// The number that a run of decimal digits writes; `None` for the empty text
/// and for a text with anything but digits in it.
pub open spec fn digits_value(s: Seq<char>) -> Option<nat>
    decreases s.len(),
{
    if s.len() == 0 {
        None
    } else {
        match digit_value(s.last()) {
            None => None,
            Some(d) => if s.len() == 1 {
                Some(d as nat)
            } else {
                match digits_value(s.drop_last()) {
                    None => None,
                    Some(v) => Some(v * 10 + d as nat),
                }
            },
        }
    }
}

/// The integer that a text writes in decimal: digits, with at most one sign in
/// front of them.
pub open spec fn parse_decimal(s: Seq<char>) -> Option<int> {
    if s.len() > 0 && s[0] == '-' {
        match digits_value(s.drop_first()) {
            Some(v) => Some(-(v as int)),
            None => None,
        }
    } else if s.len() > 0 && s[0] == '+' {
        match digits_value(s.drop_first()) {
            Some(v) => Some(v as int),
            None => None,
        }
    } else {
        match digits_value(s) {
            Some(v) => Some(v as int),
            None => None,
        }
    }
}

/// The 32-bit integer that a text writes in decimal; `None` when the text
/// writes no integer or one out of range.
pub open spec fn parse_i32(s: Seq<char>) -> Option<i32> {
    match parse_decimal(s) {
        Some(v) => if i32::MIN <= v <= i32::MAX {
            Some(v as i32)
        } else {
            None
        },
        None => None,
    }
}

proof fn lemma_trim_start(s: Seq<char>, a: int)
    requires
        0 <= a <= s.len(),
        forall|j: int| 0 <= j < a ==> is_space(s[j]),
        a == s.len() || !is_space(s[a]),
    ensures
        trim_start(s) == s.subrange(a, s.len() as int),
    decreases a,
{
    if a == 0 {
        assert(s.subrange(0, s.len() as int) =~= s);
    } else {
        let rest = s.drop_first();
        assert forall|j: int| 0 <= j < a - 1 implies is_space(rest[j]) by {
            assert(rest[j] == s[j + 1]);
        }
        lemma_trim_start(rest, a - 1);
        assert(rest.subrange(a - 1, rest.len() as int) =~= s.subrange(a, s.len() as int));
    }
}

proof fn lemma_trim_end(s: Seq<char>, b: int)
    requires
        0 <= b <= s.len(),
        forall|j: int| b <= j < s.len() ==> is_space(s[j]),
        b == 0 || !is_space(s[b - 1]),
    ensures
        trim_end(s) == s.subrange(0, b),
    decreases s.len() - b,
{
    if b == s.len() {
        assert(s.subrange(0, b) =~= s);
    } else {
        let rest = s.drop_last();
        lemma_trim_end(rest, b);
        assert(rest.subrange(0, b) =~= s.subrange(0, b));
    }
}

proof fn lemma_digits_prefix(t: Seq<char>, k: int)
    requires
        1 <= k <= t.len(),
        digits_value(t) is Some,
    ensures
        digits_value(t.subrange(0, k)) is Some,
        digits_value(t.subrange(0, k))->0 <= digits_value(t)->0,
        digit_value(t[k - 1]) is Some,
    decreases t.len() - k,
{
    if k == t.len() {
        assert(t.subrange(0, k) =~= t);
    } else {
        let shorter = t.drop_last();
        lemma_digits_prefix(shorter, k);
        assert(shorter.subrange(0, k) =~= t.subrange(0, k));
    }
}

/// The value of a decimal digit.
fn digit_of(c: char) -> (r: Option<u8>)
    ensures
        match r {
            Some(d) => digit_value(c) == Some(d as int) && d <= 9,
            None => digit_value(c) is None,
        },
{
    if c == '0' {
        Some(0)
    } else if c == '1' {
        Some(1)
    } else if c == '2' {
        Some(2)
    } else if c == '3' {
        Some(3)
    } else if c == '4' {
        Some(4)
    } else if c == '5' {
        Some(5)
    } else if c == '6' {
        Some(6)
    } else if c == '7' {
        Some(7)
    } else if c == '8' {
        Some(8)
    } else if c == '9' {
        Some(9)
    } else {
        None
    }
}

/// Whether a character is white space.
fn space(c: char) -> (r: bool)
    ensures
        r == is_space(c),
{
    let n = c as u32;
    n == 0x20 || (0x09 <= n && n <= 0x0d) || n == 0x85 || n == 0xa0 || n == 0x1680 || (0x2000 <= n
        && n <= 0x200a) || n == 0x2028 || n == 0x2029 || n == 0x202f || n == 0x205f || n == 0x3000
}

/// Reads the digits of `s` from `lo` to `hi`.  The result is their value when
/// it is at most `limit`, and `None` when there are no digits, when something
/// else stands among them, or when the value is greater.
fn read_digits(s: &str, lo: usize, hi: usize, limit: u64) -> (r: Option<u64>)
    requires
        lo <= hi <= s@.len(),
        limit <= 0x8000_0000,
    ensures
        match r {
            Some(v) => digits_value(s@.subrange(lo as int, hi as int)) == Some(v as nat) && v
                <= limit,
            None => match digits_value(s@.subrange(lo as int, hi as int)) {
                Some(v) => v > limit,
                None => true,
            },
        },
{
    let ghost t = s@.subrange(lo as int, hi as int);
    if lo == hi {
        return None;
    }
    let mut acc: u64 = 0;
    let mut i: usize = lo;
    while i < hi
        invariant
            lo <= i <= hi <= s@.len(),
            lo < hi,
            limit <= 0x8000_0000,
            acc <= limit,
            t == s@.subrange(lo as int, hi as int),
            i == lo ==> acc == 0,
            i > lo ==> digits_value(t.subrange(0, i - lo)) == Some(acc as nat),
        decreases hi - i,
    {
        let c = s.get_char(i);
        assert(t[i - lo] == c);
        let ghost shorter = t.subrange(0, i - lo);
        let ghost longer = t.subrange(0, i - lo + 1);
        assert(longer.drop_last() =~= shorter);
        assert(longer.last() == c);
        match digit_of(c) {
            None => {
                proof {
                    if digits_value(t) is Some {
                        lemma_digits_prefix(t, i - lo + 1);
                    }
                }
                return None;
            },
            Some(d) => {
                let next = acc * 10 + d as u64;
                assert(digits_value(longer) == Some(next as nat));
                if next > limit {
                    proof {
                        if digits_value(t) is Some {
                            lemma_digits_prefix(t, i - lo + 1);
                        }
                    }
                    return None;
                }
                acc = next;
            },
        }
        i += 1;
    }
    assert(t.subrange(0, hi - lo) =~= t);
    Some(acc)
}

/// Reads a 32-bit integer written in decimal between `lo` and `hi` of `s`.
fn read_i32(s: &str, lo: usize, hi: usize) -> (r: Option<i32>)
    requires
        lo <= hi <= s@.len(),
    ensures
        r == parse_i32(s@.subrange(lo as int, hi as int)),
{
    let ghost t = s@.subrange(lo as int, hi as int);
    if lo == hi {
        return None;
    }
    let first = s.get_char(lo);
    assert(t[0] == first);
    assert(t.drop_first() =~= s@.subrange(lo + 1, hi as int));
    if first == '-' {
        match read_digits(s, lo + 1, hi, 0x8000_0000) {
            Some(v) => Some((-(v as i64)) as i32),
            None => None,
        }
    } else if first == '+' {
        match read_digits(s, lo + 1, hi, 0x7fff_ffff) {
            Some(v) => Some(v as i32),
            None => None,
        }
    } else {
        match read_digits(s, lo, hi, 0x7fff_ffff) {
            Some(v) => Some(v as i32),
            None => None,
        }
    }
}

/// Reads the 32-bit integer that a text writes in decimal, white space around
/// it left aside.
pub fn parse_trimmed_i32(s: &str) -> (r: Option<i32>)
    ensures
        r == parse_i32(trimmed(s@)),
{
    let n = s.unicode_len();
    let mut a: usize = 0;
    while a < n && space(s.get_char(a))
        invariant
            a <= n,
            n == s@.len(),
            forall|j: int| 0 <= j < a ==> is_space(s@[j]),
        decreases n - a,
    {
        a += 1;
    }
    let mut b: usize = n;
    while b > a && space(s.get_char(b - 1))
        invariant
            a <= b <= n,
            n == s@.len(),
            forall|j: int| b <= j < n ==> is_space(s@[j]),
        decreases b,
    {
        b -= 1;
    }
    proof {
        lemma_trim_start(s@, a as int);
        let rest = s@.subrange(a as int, n as int);
        assert forall|j: int| b - a <= j < rest.len() implies is_space(rest[j]) by {
            assert(rest[j] == s@[j + a]);
        }
        if b > a {
            assert(rest[b - a - 1] == s@[b - 1]);
        }
        lemma_trim_end(rest, b - a);
        assert(rest.subrange(0, b - a) =~= s@.subrange(a as int, b as int));
    }
    read_i32(s, a, b)
}

} // verus!
