//! Decimal numbers in text: what a string of digits is worth, reading one
//! under a scale factor, and writing one out.

use vstd::prelude::*;
use vstd::string::StringExecFns;
use crate::error::ParseError;
use crate::text::{digit_char, digit_of, digit_str, digit_value, is_digit, lemma_digit_char_value};

verus! {

/// Whether every character of `s` is a digit.
pub open spec fn all_digits(s: Seq<char>) -> bool {
    forall|i: int| 0 <= i < s.len() ==> is_digit(#[trigger] s[i])
}

/// The number that the digits `s` spell, the first digit weighing most.
pub open spec fn digits_value(s: Seq<char>) -> nat
    decreases s.len(),
{
    if s.len() == 0 {
        0
    } else {
        (digits_value(s.drop_last()) * 10 + digit_value(s.last())) as nat
    }
}

/// The number that `s` spells, if it is a decimal number: one or more digits,
/// with an optional minus sign in front. No other sign, space or separator is
/// taken.
pub open spec fn decimal_value(s: Seq<char>) -> Option<int> {
    if s.len() > 0 && s[0] == '-' {
        let digits = s.drop_first();
        if digits.len() > 0 && all_digits(digits) {
            Some(-(digits_value(digits) as int))
        } else {
            None
        }
    } else if s.len() > 0 && all_digits(s) {
        Some(digits_value(s) as int)
    } else {
        None
    }
}

/// The amount that the number `number` stands for when one unit is worth
/// `factor`: the product, where the number is a decimal number that is not
/// below zero and the product fits into 64 bits.
pub open spec fn scaled_amount(number: Seq<char>, factor: nat) -> Result<u64, ParseError> {
    match decimal_value(number) {
        None => Err(ParseError::InvalidNumber),
        Some(n) => if n < 0 {
            Err(ParseError::Negative)
        } else if n * factor > u64::MAX {
            Err(ParseError::InvalidNumber)
        } else {
            Ok((n * factor) as u64)
        },
    }
}

/// The worth of a string of digits in terms of its last digit and the digits
/// before it; it is at least the worth of those.
pub proof fn lemma_digits_value_step(s: Seq<char>)
    requires
        s.len() > 0,
        all_digits(s),
    ensures
        digits_value(s) == digits_value(s.drop_last()) * 10 + digit_value(s.last()),
        digits_value(s) >= digits_value(s.drop_last()),
        0 <= digit_value(s.last()) <= 9,
{
    assert(is_digit(s[s.len() - 1]));
}

/// Scaling keeps the order of two amounts, and a factor of one or more makes
/// nothing smaller.
pub proof fn lemma_scale_grows(a: nat, b: nat, factor: nat)
    requires
        a <= b,
        factor >= 1,
    ensures
        a * factor <= b * factor,
        a <= a * factor,
{
    assert(a * factor <= b * factor) by (nonlinear_arith)
        requires
            a <= b,
            factor >= 1,
    ;
    assert(a <= a * factor) by (nonlinear_arith)
        requires
            factor >= 1,
    ;
}

/// Reads the first `end` characters of `chars` as a decimal number and scales
/// it by `factor`.
///
/// Every character is looked at, also once the amount has grown past 64 bits:
/// a character that is no digit makes the text `InvalidNumber` wherever it
/// stands.
pub fn parse_scaled(chars: &Vec<char>, end: usize, factor: u64) -> (r: Result<u64, ParseError>)
    requires
        end <= chars.len(),
        factor >= 1,
    ensures
        r == scaled_amount(chars@.take(end as int), factor as nat),
{
    let negative = end > 0 && chars[0] == '-';
    let start: usize = if negative { 1 } else { 0 };
    if start == end {
        return Err(ParseError::InvalidNumber);
    }
    let ghost number = chars@.take(end as int);
    let ghost digits = chars@.subrange(start as int, end as int);
    assert(digits =~= if number[0] == '-' { number.drop_first() } else { number });
    let mut acc: u64 = 0;
    let mut too_large = false;
    let mut i: usize = start;
    while i < end
        invariant
            start <= i <= end <= chars.len(),
            factor >= 1,
            number == chars@.take(end as int),
            digits == chars@.subrange(start as int, end as int),
            digits == if number[0] == '-' { number.drop_first() } else { number },
            all_digits(digits.take(i - start)),
            !too_large ==> acc == digits_value(digits.take(i - start)) && acc * factor <= u64::MAX,
            too_large ==> digits_value(digits.take(i - start)) * factor > u64::MAX,
        decreases end - i,
    {
        let ghost before = digits.take(i - start);
        let ghost after = digits.take(i + 1 - start);
        assert(after.drop_last() == before);
        assert(after.last() == chars[i as int]);
        match digit_of(chars[i]) {
            None => {
                assert(!is_digit(digits[i - start]));
                return Err(ParseError::InvalidNumber);
            },
            Some(d) => {
                proof {
                    assert forall|k: int| 0 <= k < after.len() implies is_digit(
                        #[trigger] after[k],
                    ) by {
                        if k < before.len() {
                            assert(after[k] == before[k]);
                        }
                    }
                    lemma_digits_value_step(after);
                    lemma_scale_grows(digits_value(before), digits_value(after), factor as nat);
                    if digits_value(after) > u64::MAX {
                        lemma_scale_grows(
                            (u64::MAX + 1) as nat,
                            digits_value(after),
                            factor as nat,
                        );
                    }
                }
                if !too_large {
                    let next = match acc.checked_mul(10) {
                        Some(tens) => tens.checked_add(d as u64),
                        None => None,
                    };
                    match next {
                        Some(n) if n.checked_mul(factor).is_some() => {
                            acc = n;
                        },
                        _ => {
                            too_large = true;
                        },
                    }
                }
            },
        }
        i += 1;
    }
    assert(digits.take(end - start) == digits);
    if negative {
        if too_large || acc > 0 {
            Err(ParseError::Negative)
        } else {
            Ok(0)
        }
    } else if too_large {
        Err(ParseError::InvalidNumber)
    } else {
        Ok(acc * factor)
    }
}

/// The decimal digits of `n`, without leading zeros; zero is one digit.
pub open spec fn decimal_digits(n: nat) -> Seq<char>
    decreases n,
{
    if n < 10 {
        seq![digit_char(n as int)]
    } else {
        decimal_digits(n / 10).push(digit_char((n % 10) as int))
    }
}

/// Writes `n` in decimal at the end of `out`.
pub fn push_decimal(out: &mut String, n: u64)
    ensures
        final(out)@ == old(out)@ + decimal_digits(n as nat),
    decreases n,
{
    if n >= 10 {
        push_decimal(out, n / 10);
    }
    out.append(digit_str((n % 10) as u8));
    assert(out@ =~= old(out)@ + decimal_digits(n as nat));
}

/// What was written as decimal digits reads back as the same number.
pub proof fn lemma_decimal_digits_value(n: nat)
    ensures
        decimal_digits(n).len() > 0,
        all_digits(decimal_digits(n)),
        digits_value(decimal_digits(n)) == n,
        decimal_value(decimal_digits(n)) == Some(n as int),
    decreases n,
{
    let s = decimal_digits(n);
    if n < 10 {
        lemma_digit_char_value(n as int);
        assert(s.drop_last().len() == 0);
        assert(digits_value(s.drop_last()) == 0);
    } else {
        lemma_decimal_digits_value(n / 10);
        lemma_digit_char_value((n % 10) as int);
        assert(s.drop_last() =~= decimal_digits(n / 10));
        assert(s.last() == digit_char((n % 10) as int));
    }
    assert(is_digit(s[0]));
}

} // verus!
