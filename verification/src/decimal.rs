//! Numbers as decimal texts.

use vstd::prelude::*;
use vstd::string::{StrSliceExecFns, StringExecFns};

verus! {

/// The character of a decimal digit.
pub open spec fn spec_digit(digit: int) -> char {
    if digit == 0 {
        '0'
    } else if digit == 1 {
        '1'
    } else if digit == 2 {
        '2'
    } else if digit == 3 {
        '3'
    } else if digit == 4 {
        '4'
    } else if digit == 5 {
        '5'
    } else if digit == 6 {
        '6'
    } else if digit == 7 {
        '7'
    } else if digit == 8 {
        '8'
    } else {
        '9'
    }
}

/// A natural number in decimal, without leading zeros.
pub open spec fn spec_decimal(n: nat) -> Seq<char>
    decreases n,
{
    if n < 10 {
        seq![spec_digit(n as int)]
    } else {
        spec_decimal(n / 10).push(spec_digit((n % 10) as int))
    }
}

/// An integer in decimal, with a minus sign where it is negative.
pub open spec fn spec_signed_decimal(n: int) -> Seq<char> {
    if n < 0 {
        seq!['-'] + spec_decimal((-n) as nat)
    } else {
        spec_decimal(n as nat)
    }
}

fn digit_text(digit: u128) -> (r: &'static str)
    requires
        digit < 10,
    ensures
        r@ == seq![spec_digit(digit as int)],
{
    proof {
        reveal_strlit("0");
        reveal_strlit("1");
        reveal_strlit("2");
        reveal_strlit("3");
        reveal_strlit("4");
        reveal_strlit("5");
        reveal_strlit("6");
        reveal_strlit("7");
        reveal_strlit("8");
        reveal_strlit("9");
    }
    let r = if digit == 0 {
        "0"
    } else if digit == 1 {
        "1"
    } else if digit == 2 {
        "2"
    } else if digit == 3 {
        "3"
    } else if digit == 4 {
        "4"
    } else if digit == 5 {
        "5"
    } else if digit == 6 {
        "6"
    } else if digit == 7 {
        "7"
    } else if digit == 8 {
        "8"
    } else {
        "9"
    };
    assert(r@ =~= seq![spec_digit(digit as int)]);
    r
}

pub(crate) fn write_decimal(out: &mut String, n: u128)
    ensures
        final(out)@ == old(out)@ + spec_decimal(n as nat),
    decreases n,
{
    if n >= 10 {
        write_decimal(out, n / 10);
    }
    out.append(digit_text(n % 10));
    assert(out@ =~= old(out)@ + spec_decimal(n as nat));
}

pub(crate) fn write_signed_decimal(out: &mut String, n: i128)
    ensures
        final(out)@ == old(out)@ + spec_signed_decimal(n as int),
{
    if n < 0 {
        proof {
            reveal_strlit("-");
        }
        out.append("-");
        write_decimal(out, ((-(n + 1)) as u128) + 1);
        assert(out@ =~= old(out)@ + spec_signed_decimal(n as int));
    } else {
        write_decimal(out, n as u128);
    }
}

/// Writes a number in decimal.
pub fn decimal(n: u64) -> (r: String)
    ensures
        r@ == spec_decimal(n as nat),
{
    let mut out = String::new();
    write_decimal(&mut out, n as u128);
    assert(out@ =~= spec_decimal(n as nat));
    out
}

/// Writes an integer in decimal.
pub fn signed_decimal(n: i128) -> (r: String)
    ensures
        r@ == spec_signed_decimal(n as int),
{
    let mut out = String::new();
    write_signed_decimal(&mut out, n);
    assert(out@ =~= spec_signed_decimal(n as int));
    out
}

/// A number that is too large for the numbers of a script, and goes over the wire as its
/// decimal text.
pub trait Bigint: Sized {
    /// The number.
    spec fn value(&self) -> int;

    /// The number as a text.
    fn serialize_bigint_to_string(&self) -> (r: String)
        ensures
            r@ == spec_signed_decimal(self.value()),
    ;
}

impl Bigint for u64 {
    open spec fn value(&self) -> int {
        *self as int
    }

    fn serialize_bigint_to_string(&self) -> (r: String) {
        signed_decimal(*self as i128)
    }
}

impl Bigint for i64 {
    open spec fn value(&self) -> int {
        *self as int
    }

    fn serialize_bigint_to_string(&self) -> (r: String) {
        signed_decimal(*self as i128)
    }
}

impl Bigint for i128 {
    open spec fn value(&self) -> int {
        *self as int
    }

    fn serialize_bigint_to_string(&self) -> (r: String) {
        signed_decimal(*self)
    }
}

impl Bigint for u128 {
    open spec fn value(&self) -> int {
        *self as int
    }

    fn serialize_bigint_to_string(&self) -> (r: String) {
        let mut out = String::new();
        write_decimal(&mut out, *self);
        assert(out@ =~= spec_signed_decimal(*self as int));
        out
    }
}



/// The digit that a character stands for, if it is a decimal digit.
pub open spec fn spec_digit_value(c: char) -> Option<int> {
    if '0' <= c <= '9' {
        Some(c as int - '0' as int)
    } else {
        None
    }
}

/// The number that a text of decimal digits stands for; none where the text is empty or
/// holds anything else.
pub open spec fn spec_digits_value(text: Seq<char>) -> Option<nat>
    decreases text.len(),
{
    if text.len() == 0 {
        None
    } else {
        match spec_digit_value(text.last()) {
            None => None,
            Some(digit) => if text.len() == 1 {
                Some(digit as nat)
            } else {
                match spec_digits_value(text.drop_last()) {
                    Some(front) => Some(front * 10 + digit as nat),
                    None => None,
                }
            },
        }
    }
}

/// The digits at the front of a number in decimal are a number themselves, and no larger.
pub proof fn lemma_digits_value_grows(text: Seq<char>, upto: int)
    requires
        0 < upto <= text.len(),
        spec_digits_value(text) is Some,
    ensures
        spec_digits_value(text.take(upto)) is Some,
        spec_digits_value(text.take(upto))->0 <= spec_digits_value(text)->0,
    decreases text.len(),
{
    if upto == text.len() {
        assert(text.take(upto) =~= text);
    } else {
        assert(text.drop_last().take(upto) =~= text.take(upto));
        lemma_digits_value_grows(text.drop_last(), upto);
    }
}

/// The digit that a character stands for.
pub(crate) fn digit_of(c: char) -> (r: Option<u64>)
    ensures
        match r {
            Some(d) => spec_digit_value(c) == Some(d as int) && d < 10,
            None => spec_digit_value(c) is None,
        },
{
    if '0' <= c && c <= '9' {
        Some((c as u64) - ('0' as u64))
    } else {
        None
    }
}

/// A text stands for a number in decimal digits, and the number is above the bound.
pub open spec fn spec_digits_exceed(text: Seq<char>, bound: nat) -> bool {
    spec_digits_value(text) matches Some(n) && n > bound
}

/// A number, or the cap where the number is larger.
pub open spec fn spec_capped(n: nat, cap: nat) -> nat {
    if n < cap {
        n
    } else {
        cap
    }
}

/// Whether a text stands for a number in decimal digits that is above the bound.
pub fn digits_exceed(text: &str, bound: u32) -> (r: bool)
    ensures
        r == spec_digits_exceed(text@, bound as nat),
{
    let length = text.unicode_len();
    if length == 0 {
        return false;
    }
    let cap: u64 = bound as u64 + 1;
    let mut value: u64 = 0;
    let mut i: usize = 0;
    while i < length
        invariant
            i <= length,
            0 < length == text@.len(),
            cap == bound + 1,
            value <= cap,
            i > 0 ==> spec_digits_value(text@.take(i as int)) is Some,
            i > 0 ==> value == spec_capped(spec_digits_value(text@.take(i as int))->0, cap as nat),
        decreases length - i,
    {
        let c = text.get_char(i);
        let ghost upto = text@.take(i + 1);
        proof {
            assert(upto.last() == c);
            assert(upto.drop_last() =~= text@.take(i as int));
        }
        let digit = match digit_of(c) {
            Some(d) => d,
            None => {
                proof {
                    assert(spec_digits_value(upto) is None);
                    if spec_digits_value(text@) is Some {
                        lemma_digits_value_grows(text@, i + 1);
                    }
                }
                return false;
            },
        };
        let next: u64 = if i == 0 {
            digit
        } else {
            value * 10 + digit
        };
        value = if next < cap {
            next
        } else {
            cap
        };
        i += 1;
    }
    assert(text@.take(length as int) =~= text@);
    value > bound as u64
}

} // verus!
