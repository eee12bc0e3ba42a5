//! Numbers as text, and text as numbers.
//!
//! The book reads unsigned decimal numbers from what the user types and
//! writes signed ones into its report. Both directions are defined here on
//! sequences of characters and carried out on strings.

use vstd::prelude::*;
use vstd::string::StringSliceAdditionalSpecFns;

verus! {

/// What `str::trim` leaves of a text.
pub uninterp spec fn trimmed(text: Seq<char>) -> Seq<char>;

/// `str::trim`: the text without the white space at its two ends.
///
/// Which characters count as white space is Unicode's matter, so the result
/// goes by the name [`trimmed`]; claimed is only that it depends on the text
/// alone.
#[verifier::external_body]
pub(crate) fn trim(text: &str) -> (r: &str)
    ensures
        r@ == trimmed(text@),
{
    text.trim()
}

/// `String::push` appends one character to the string.
pub assume_specification[ String::push ](s: &mut String, ch: char)
    ensures
        final(s)@ == old(s)@.push(ch),
;

/// The character that writes the digit `d`, for `d` from 0 to 9.
pub open spec fn digit_char(d: int) -> char {
    (d + 48) as char
}

/// The digits of `n` in base ten, most significant first, without leading
/// zeros; zero is written `0`.
pub open spec fn decimal_digits(n: nat) -> Seq<char>
    decreases n,
{
    if n < 10 {
        seq![digit_char(n as int)]
    } else {
        decimal_digits(n / 10).push(digit_char((n % 10) as int))
    }
}

/// `n` in base ten: its digits, after a `-` where `n` is negative.
pub open spec fn decimal(n: int) -> Seq<char> {
    if n < 0 {
        seq!['-'] + decimal_digits((-n) as nat)
    } else {
        decimal_digits(n as nat)
    }
}

fn digit_to_char(d: u8) -> (c: char)
    requires
        d < 10,
    ensures
        c == digit_char(d as int),
{
    (d + 48) as char
}

/// Writes `n` in base ten.
pub fn to_decimal(n: i128) -> (r: String)
    ensures
        r@ == decimal(n as int),
{
    let magnitude: u128 = if n < 0 {
        (-(n + 1)) as u128 + 1
    } else {
        n as u128
    };
    let mut rest: u128 = magnitude / 10;
    let mut reversed: Vec<char> = Vec::new();
    reversed.push(digit_to_char((magnitude % 10) as u8));
    while rest > 0
        invariant
            reversed@.len() > 0,
            decimal_digits(magnitude as nat) == if rest > 0 {
                decimal_digits(rest as nat) + reversed@.reverse()
            } else {
                reversed@.reverse()
            },
        decreases rest,
    {
        let ghost before = reversed@;
        let d = digit_to_char((rest % 10) as u8);
        reversed.push(d);
        proof {
            assert(reversed@.reverse() =~= seq![d] + before.reverse());
            if rest >= 10 {
                assert(decimal_digits(rest as nat) + before.reverse() =~= decimal_digits(
                    (rest / 10) as nat,
                ) + reversed@.reverse());
            }
        }
        rest = rest / 10;
    }
    let mut r = String::new();
    if n < 0 {
        r.push('-');
    }
    let ghost sign = r@;
    let mut i: usize = reversed.len();
    while i > 0
        invariant
            i <= reversed@.len(),
            r@ == sign + reversed@.subrange(i as int, reversed@.len() as int).reverse(),
        decreases i,
    {
        i = i - 1;
        r.push(reversed[i]);
        proof {
            let len = reversed@.len() as int;
            assert(reversed@.subrange(i as int, len).reverse() =~= reversed@.subrange(
                i + 1,
                len,
            ).reverse().push(reversed@[i as int]));
        }
    }
    assert(reversed@.subrange(0, reversed@.len() as int) =~= reversed@);
    r
}

/// Whether `c` is one of the ten digits.
pub open spec fn is_digit(c: char) -> bool {
    '0' <= c <= '9'
}

/// Whether `s` holds digits only.
pub open spec fn all_digits(s: Seq<char>) -> bool {
    forall|i: int| 0 <= i < s.len() ==> is_digit(#[trigger] s[i])
}

/// The number that the digits `s` write in base ten; leading zeros count for
/// nothing.
pub open spec fn digits_value(s: Seq<char>) -> nat
    decreases s.len(),
{
    if s.len() == 0 {
        0
    } else {
        10 * digits_value(s.drop_last()) + (s.last() as int - 48) as nat
    }
}

/// `s` without the `+` that may stand in front of an unsigned number.
pub open spec fn without_plus(s: Seq<char>) -> Seq<char> {
    if s.len() > 0 && s[0] == '+' {
        s.subrange(1, s.len() as int)
    } else {
        s
    }
}

/// The unsigned number that `s` writes, if it writes one that is no greater
/// than `max`: at least one digit and nothing but digits, after at most one
/// `+`.
pub open spec fn parsed_unsigned(s: Seq<char>, max: nat) -> Option<nat> {
    let digits = without_plus(s);
    if digits.len() > 0 && all_digits(digits) && digits_value(digits) <= max {
        Some(digits_value(digits))
    } else {
        None
    }
}

/// The number written by the first digits of `s` is no greater than the one
/// written by all of them.
pub proof fn lemma_digits_value_grows(s: Seq<char>, k: int)
    requires
        0 <= k <= s.len(),
    ensures
        digits_value(s.take(k)) <= digits_value(s),
    decreases s.len(),
{
    if k < s.len() {
        lemma_digits_value_grows(s.drop_last(), k);
        assert(s.drop_last().take(k) =~= s.take(k));
    } else {
        assert(s.take(k) =~= s);
    }
}

/// Reads an unsigned number of at most `max` from `text`.
pub fn parse_unsigned(text: &str, max: u32) -> (r: Option<u32>)
    ensures
        match r {
            Some(value) => parsed_unsigned(text@, max as nat) == Some(value as nat),
            None => parsed_unsigned(text@, max as nat) is None,
        },
{
    let ghost digits = without_plus(text@);
    if !text.is_ascii() {
        proof {
            let i = choose|i: int|
                0 <= i < text@.len() && !('\0' <= #[trigger] text@[i] && text@[i] <= '\u{7f}');
            if digits.len() < text@.len() {
                assert(!is_digit(digits[i - 1]));
            } else {
                assert(!is_digit(digits[i]));
            }
        }
        return None;
    }
    let bytes = text.as_bytes();
    proof {
        vstd::string::is_ascii_spec_bytes(text);
    }
    let n = bytes.len();
    assert forall|j: int| 0 <= j < n implies (#[trigger] bytes@[j]) as int == text@[j] as int by {
        assert(bytes@[j] == text@[j] as u8);
    }
    let start: usize = if n > 0 && bytes[0] == 43 {
        1
    } else {
        0
    };
    if start == n {
        return None;
    }
    let mut value: u64 = 0;
    let mut i: usize = start;
    while i < n
        invariant
            start <= i <= n,
            n == text@.len(),
            n == bytes@.len(),
            digits == without_plus(text@),
            digits == text@.subrange(start as int, n as int),
            forall|j: int| 0 <= j < n ==> (#[trigger] bytes@[j]) as int == text@[j] as int,
            all_digits(digits.take(i - start)),
            value == digits_value(digits.take(i - start)),
            value <= max,
        decreases n - i,
    {
        let b = bytes[i];
        if b < 48 || b > 57 {
            assert(!is_digit(digits[i - start]));
            return None;
        }
        proof {
            assert(digits.take(i + 1 - start).drop_last() =~= digits.take(i - start));
        }
        value = value * 10 + (b - 48) as u64;
        if value > max as u64 {
            proof {
                lemma_digits_value_grows(digits, i + 1 - start);
            }
            return None;
        }
        i = i + 1;
    }
    assert(digits.take(n - start) =~= digits);
    Some(value as u32)
}

} // verus!
