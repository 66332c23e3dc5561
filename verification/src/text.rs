//! Verified text helpers: decimal parsing and formatting, and ASCII
//! case-insensitive comparison, as plain functions on character sequences.

use vstd::prelude::*;

verus! {

use vstd::string::StrSliceExecFns;
use vstd::string::StringExecFns;

/// True of the ten ASCII decimal digit characters.
pub open spec fn is_dec_digit(c: char) -> bool {
    ('0' as u32) <= (c as u32) && (c as u32) <= ('9' as u32)
}

/// Numeric value of one decimal digit character.
pub open spec fn digit_value(c: char) -> nat
    recommends
        is_dec_digit(c),
{
    ((c as int) - ('0' as int)) as nat
}

/// The digit character for a value below ten.
pub open spec fn digit_char(d: nat) -> char
    recommends
        d < 10,
{
    if d == 0 { '0' }
    else if d == 1 { '1' }
    else if d == 2 { '2' }
    else if d == 3 { '3' }
    else if d == 4 { '4' }
    else if d == 5 { '5' }
    else if d == 6 { '6' }
    else if d == 7 { '7' }
    else if d == 8 { '8' }
    else if d == 9 { '9' }
    else { ' ' }
}

/// True when every character of `s` is a decimal digit.
pub open spec fn all_digits(s: Seq<char>) -> bool {
    forall|i: int| 0 <= i < s.len() ==> is_dec_digit(s[i])
}

/// The number denoted by a sequence of decimal digits, most significant
/// first; the empty sequence denotes zero.
pub open spec fn digits_val(s: Seq<char>) -> nat
    decreases s.len(),
{
    if s.len() == 0 {
        0
    } else {
        digits_val(s.drop_last()) * 10 + digit_value(s.last())
    }
}

/// `s` without one leading plus sign, if it has one.
pub open spec fn strip_plus(s: Seq<char>) -> Seq<char> {
    if s.len() > 0 && s[0] == '+' {
        s.subrange(1, s.len() as int)
    } else {
        s
    }
}

/// The number an unsigned decimal numeral denotes, or `None` where the text
/// is not one. A numeral is an optional leading `+` followed by one or more
/// decimal digits, as Rust's `parse` for unsigned integers reads it; the
/// value is unbounded here, so a caller states its own range check.
pub open spec fn parsed_uint(s: Seq<char>) -> Option<nat> {
    let d = strip_plus(s);
    if d.len() > 0 && all_digits(d) {
        Some(digits_val(d))
    } else {
        None
    }
}

/// A digit sequence's value never shrinks when more digits follow: the value
/// of a prefix is at most the value of the whole.
proof fn lemma_digits_val_prefix_le(s: Seq<char>, i: int)
    requires
        0 <= i <= s.len(),
    ensures
        digits_val(s.subrange(0, i)) <= digits_val(s),
    decreases s.len() - i,
{
    if i == s.len() {
        assert(s.subrange(0, i) =~= s);
    } else {
        let shorter = s.subrange(0, i);
        let longer = s.subrange(0, i + 1);
        assert(longer.drop_last() =~= shorter);
        assert(digits_val(longer) == digits_val(shorter) * 10 + digit_value(longer.last()));
        lemma_digits_val_prefix_le(s, i + 1);
    }
}

/// Reads an unsigned decimal numeral exactly as `str::parse::<u64>` does:
/// the result is the numeral's value where the text is a numeral whose value
/// fits in a `u64`, and `None` otherwise.
pub fn parse_u64(s: &str) -> (r: Option<u64>)
    ensures
        r == (match parsed_uint(s@) {
            Some(n) => if n <= u64::MAX { Some(n as u64) } else { None::<u64> },
            None => None::<u64>,
        }),
{
    let len = s.unicode_len();
    if len == 0 {
        return None;
    }
    let start: usize = if s.get_char(0) == '+' { 1 } else { 0 };
    if start == len {
        return None;
    }
    let ghost d = strip_plus(s@);
    proof {
        assert(d.len() == len - start);
        assert(forall|j: int| 0 <= j < d.len() ==> d[j] == s@[j + start]);
    }
    let mut acc: u64 = 0;
    let mut i: usize = start;
    while i < len
        invariant
            start <= i <= len,
            start <= 1,
            len == s@.len(),
            start == 1 ==> s@[0] == '+',
            start == 0 ==> !(s@.len() > 0 && s@[0] == '+'),
            start < len,
            d == strip_plus(s@),
            d.len() == len - start,
            forall|j: int| 0 <= j < d.len() ==> d[j] == s@[j + start],
            all_digits(d.subrange(0, i - start)),
            acc == digits_val(d.subrange(0, i - start)),
        decreases len - i,
    {
        let c = s.get_char(i);
        let u = c as u32;
        if u < '0' as u32 || u > '9' as u32 {
            proof {
                assert(d[i - start] == s@[i as int]);
                assert(!is_dec_digit(d[i - start]));
                assert(parsed_uint(s@) is None);
            }
            return None;
        }
        let dv: u64 = (u - ('0' as u32)) as u64;
        let ghost prefix = d.subrange(0, i - start);
        let ghost extended = d.subrange(0, i + 1 - start);
        proof {
            assert(extended.drop_last() =~= prefix);
            assert(extended.last() == d[i - start] && d[i - start] == s@[i as int]);
            assert(digits_val(extended) == digits_val(prefix) * 10 + digit_value(s@[i as int]));
            assert(digit_value(s@[i as int]) == dv);
        }
        let step = match acc.checked_mul(10) {
            Some(t) => t.checked_add(dv),
            None => None,
        };
        match step {
            Some(next) => {
                acc = next;
            },
            None => {
                proof {
                    assert(digits_val(extended) > u64::MAX);
                    lemma_digits_val_prefix_le(d, i + 1 - start);
                    assert(digits_val(d) >= digits_val(extended));
                    if parsed_uint(s@) is Some {
                        assert(parsed_uint(s@) == Some(digits_val(d)));
                    }
                }
                return None;
            },
        }
        i += 1;
    }
    proof {
        assert(d.subrange(0, i - start) =~= d);
        assert(parsed_uint(s@) == Some(digits_val(d)));
        assert(digits_val(d) == acc);
    }
    Some(acc)
}

/// Reads an unsigned decimal numeral exactly as `str::parse::<u16>` does.
pub fn parse_u16(s: &str) -> (r: Option<u16>)
    ensures
        r == (match parsed_uint(s@) {
            Some(n) => if n <= u16::MAX { Some(n as u16) } else { None::<u16> },
            None => None::<u16>,
        }),
{
    match parse_u64(s) {
        Some(n) => if n <= 0xffff { Some(n as u16) } else { None },
        None => None,
    }
}

/// An ASCII upper-case letter mapped to its lower-case form; every other
/// character is left alone.
pub open spec fn lower_char(c: char) -> char {
    if ('A' as u32) <= (c as u32) && (c as u32) <= ('Z' as u32) {
        (((c as u32) + 32) as u8) as char
    } else {
        c
    }
}

/// `s` with each ASCII upper-case letter lowered.
pub open spec fn lower_seq(s: Seq<char>) -> Seq<char> {
    s.map_values(|c: char| lower_char(c))
}

/// The ASCII lower-case form of one character.
fn lower_char_exec(c: char) -> (r: char)
    ensures
        r == lower_char(c),
{
    let u = c as u32;
    if ('A' as u32) <= u && u <= ('Z' as u32) {
        ((u + 32) as u8) as char
    } else {
        c
    }
}

/// ASCII case-insensitive equality of two strings, as
/// `str::eq_ignore_ascii_case` decides it.
pub fn eq_ignore_ascii(a: &str, b: &str) -> (r: bool)
    ensures
        r == (lower_seq(a@) == lower_seq(b@)),
{
    let alen = a.unicode_len();
    let blen = b.unicode_len();
    if alen != blen {
        proof {
            assert(lower_seq(a@).len() != lower_seq(b@).len());
        }
        return false;
    }
    let mut i: usize = 0;
    while i < alen
        invariant
            0 <= i <= alen,
            alen == a@.len(),
            alen == b@.len(),
            forall|j: int| 0 <= j < i ==> lower_char(a@[j]) == lower_char(b@[j]),
        decreases alen - i,
    {
        let ca = lower_char_exec(a.get_char(i));
        let cb = lower_char_exec(b.get_char(i));
        if ca != cb {
            proof {
                assert(lower_seq(a@)[i as int] != lower_seq(b@)[i as int]);
            }
            return false;
        }
        i += 1;
    }
    proof {
        assert(lower_seq(a@) =~= lower_seq(b@));
    }
    true
}

/// Decimal notation of `n`, most significant digit first, no leading zeros
/// (except for `n == 0`, written as the single digit `0`).
pub open spec fn dec_seq(n: nat) -> Seq<char>
    decreases n,
{
    if n < 10 {
        seq![digit_char(n)]
    } else {
        dec_seq(n / 10).push(digit_char(n % 10))
    }
}

/// A one-character string slice for a digit value below ten.
fn digit_str(d: u16) -> (r: &'static str)
    requires
        d < 10,
    ensures
        r@ =~= seq![digit_char(d as nat)],
{
    proof {
        reveal_strlit("0");
        reveal_strlit("1");
        reveal_strlit("2");
        reveal_strlit("3");
        reveal_strlit("4");
        reveal_strlit("5");
        reveal_strlit("6");
        reveal_strlit("7");
        reveal_strlit("8");
        reveal_strlit("9");
    }
    if d == 0 { "0" }
    else if d == 1 { "1" }
    else if d == 2 { "2" }
    else if d == 3 { "3" }
    else if d == 4 { "4" }
    else if d == 5 { "5" }
    else if d == 6 { "6" }
    else if d == 7 { "7" }
    else if d == 8 { "8" }
    else { "9" }
}

/// Decimal rendering of a 16-bit number, e.g. 404 as the three characters
/// `4`, `0`, `4`.
pub fn u16_to_dec(n: u16) -> (r: String)
    ensures
        r@ == dec_seq(n as nat),
    decreases n,
{
    if n < 10 {
        let mut s = String::new();
        s.append(digit_str(n));
        proof {
            assert(s@ =~= dec_seq(n as nat));
        }
        s
    } else {
        let mut s = u16_to_dec(n / 10);
        s.append(digit_str(n % 10));
        proof {
            assert(s@ =~= dec_seq(n as nat));
        }
        s
    }
}

} // verus!
