//! Decimal text in thousandths.
//!
//! Metres, sensitivities and frame rates are typed as decimal numbers and
//! used in thousandths: millimetres, thousandths, millihertz. The text is
//! converted exactly, without floating point: the result is the nearest
//! thousandth to the number typed, a half rounded up.

use vstd::prelude::*;
use vstd::arithmetic::div_mod::lemma_fundamental_div_mod_converse;
use vstd::slice::slice_subrange;
use crate::text::all_digits;
use crate::text::digit_value;
use crate::text::digits_value;
use crate::text::Radix;

verus! {

/// Ten to the power of `n`.
pub open spec fn pow10(n: nat) -> nat
    decreases n,
{
    if n == 0 {
        1
    } else {
        10 * pow10((n - 1) as nat)
    }
}

/// The nearest integer to `numerator / denominator`, a half rounded up.
pub open spec fn rounded(numerator: nat, denominator: nat) -> nat {
    (2 * numerator + denominator) / (2 * denominator)
}

/// The number `whole.fraction` in thousandths, rounded to the nearest.
pub open spec fn thousandths(whole: Seq<u8>, fraction: Seq<u8>) -> nat {
    rounded(
        (digits_value(whole, Radix::Decimal) * pow10(fraction.len()) + digits_value(
            fraction,
            Radix::Decimal,
        )) * 1000,
        pow10(fraction.len()),
    )
}

/// Position of the first `byte` in `text`, or the length of `text` if it
/// has none.
pub open spec fn first_index(text: Seq<u8>, byte: u8) -> int
    decreases text.len(),
{
    if text.len() == 0 {
        0
    } else if text[0] == byte {
        0
    } else {
        1 + first_index(text.skip(1), byte)
    }
}

/// Position of the first point in `text`, or its length if it has none.
pub open spec fn first_point(text: Seq<u8>) -> int {
    first_index(text, 46)
}

/// The digits before the first point.
pub open spec fn whole_part(text: Seq<u8>) -> Seq<u8> {
    text.take(first_point(text))
}

/// The digits after the first point.
pub open spec fn fraction_part(text: Seq<u8>) -> Seq<u8> {
    if first_point(text) < text.len() {
        text.skip(first_point(text) + 1)
    } else {
        Seq::empty()
    }
}

/// The thousandths that `text` denotes, if it denotes any: digits, with at
/// most one point among them and at least one digit, and a value that in
/// thousandths fits 32 bits. `1`, `1.`, `.5` and `0.0625` are such texts;
/// signs and exponents are not accepted.
pub open spec fn spec_parse_thousandths(text: Seq<u8>) -> Option<u32> {
    let whole = whole_part(text);
    let fraction = fraction_part(text);
    if all_digits(whole, Radix::Decimal) && all_digits(fraction, Radix::Decimal) && whole.len()
        + fraction.len() > 0 && thousandths(whole, fraction) <= u32::MAX {
        Some(thousandths(whole, fraction) as u32)
    } else {
        None
    }
}

/// The value of digits followed by more digits.
pub proof fn lemma_digits_concat(front: Seq<u8>, back: Seq<u8>)
    ensures
        digits_value(front + back, Radix::Decimal) == digits_value(front, Radix::Decimal) * pow10(
            back.len(),
        ) + digits_value(back, Radix::Decimal),
    decreases back.len(),
{
    if back.len() == 0 {
        assert(front + back =~= front);
        assert(pow10(0) == 1);
        assert(digits_value(front, Radix::Decimal) * 1 == digits_value(front, Radix::Decimal))
            by (nonlinear_arith);
    } else {
        lemma_digits_concat(front, back.drop_last());
        assert((front + back).drop_last() =~= front + back.drop_last());
        assert((front + back).last() == back.last());
        let a = digits_value(front, Radix::Decimal);
        let b = digits_value(back.drop_last(), Radix::Decimal);
        let p = pow10(back.drop_last().len());
        let d: nat = match crate::text::spec_digit_value(back.last(), Radix::Decimal) {
            Some(v) => v as nat,
            None => 0,
        };
        assert(Radix::Decimal.base() == 10);
        assert(digits_value(back, Radix::Decimal) == b * 10 + d);
        assert(digits_value(front + back, Radix::Decimal) == (a * p + b) * 10 + d);
        assert(pow10(back.len()) == 10 * p);
        assert((a * p + b) * 10 == a * (10 * p) + b * 10) by (nonlinear_arith);
        assert(a * pow10(back.len()) == a * (10 * p));
    }
}

/// `n` digits denote less than ten to the power of `n`.
pub proof fn lemma_digits_bound(text: Seq<u8>)
    requires
        all_digits(text, Radix::Decimal),
    ensures
        digits_value(text, Radix::Decimal) < pow10(text.len()),
    decreases text.len(),
{
    if text.len() > 0 {
        let init = text.drop_last();
        assert forall|i: int| 0 <= i < init.len() implies (#[trigger] crate::text::spec_digit_value(
            init[i],
            Radix::Decimal,
        )) is Some by {
            assert(init[i] == text[i]);
        }
        lemma_digits_bound(init);
        assert(crate::text::spec_digit_value(text[text.len() - 1], Radix::Decimal) is Some);
        assert(Radix::Decimal.base() == 10);
        assert(pow10(text.len()) == 10 * pow10(init.len()));
    } else {
        assert(pow10(0) == 1);
    }
}

/// A number with at most three decimals is its own thousandths.
proof fn lemma_exact(whole: nat, fraction: nat, scale: nat, places: nat)
    requires
        scale * places == 1000,
        scale >= 1,
    ensures
        rounded((whole * places + fraction) * 1000, places) == whole * 1000 + fraction * scale,
{
    let quotient = whole * 1000 + fraction * scale;
    assert(2 * ((whole * places + fraction) * 1000) + places == quotient * (2 * places) + places)
        by (nonlinear_arith)
        requires
            scale * places == 1000,
            quotient == whole * 1000 + fraction * scale,
    ;
    assert(places >= 1) by (nonlinear_arith)
        requires
            scale * places == 1000,
    ;
    lemma_fundamental_div_mod_converse(
        (2 * ((whole * places + fraction) * 1000) + places) as int,
        (2 * places) as int,
        quotient as int,
        places as int,
    );
}

/// A number with more than three decimals rounds by its fourth: up from
/// five on, down below.
proof fn lemma_rounds_by_fourth_decimal(whole: nat, head: nat, fourth: nat, rest: nat, unit: nat)
    requires
        fourth <= 9,
        rest < unit,
    ensures
        rounded(
            (whole * (10000 * unit) + (head * 10 + fourth) * unit + rest) * 1000,
            10000 * unit,
        ) == whole * 1000 + head + (if fourth >= 5 {
            1nat
        } else {
            0nat
        }),
{
    let carry: nat = if fourth >= 5 {
        1
    } else {
        0
    };
    let quotient = whole * 1000 + head + carry;
    let numerator = (whole * (10000 * unit) + (head * 10 + fourth) * unit + rest) * 1000;
    let divisor = 2 * (10000 * unit);
    let remainder: int = 2000 * fourth * unit + 2000 * rest + 10000 * unit - 20000 * carry * unit;
    assert(2 * numerator + 10000 * unit == quotient * divisor + remainder) by (nonlinear_arith)
        requires
            quotient == whole * 1000 + head + carry,
            numerator == (whole * (10000 * unit) + (head * 10 + fourth) * unit + rest) * 1000,
            divisor == 2 * (10000 * unit),
            remainder == 2000 * fourth * unit + 2000 * rest + 10000 * unit - 20000 * carry * unit,
    ;
    assert(0 <= remainder < divisor) by (nonlinear_arith)
        requires
            remainder == 2000 * fourth * unit + 2000 * rest + 10000 * unit - 20000 * carry * unit,
            divisor == 2 * (10000 * unit),
            fourth <= 9,
            rest < unit,
            carry == (if fourth >= 5 {
                1nat
            } else {
                0nat
            }),
    ;
    lemma_fundamental_div_mod_converse(
        (2 * numerator + 10000 * unit) as int,
        divisor as int,
        quotient as int,
        remainder,
    );
}

/// The thousandths of a number are at least a thousand times its whole
/// part.
proof fn lemma_thousandths_at_least(whole: nat, fraction: nat, places: nat)
    requires
        places >= 1,
    ensures
        rounded((whole * places + fraction) * 1000, places) >= whole * 1000,
{
    let numerator = (whole * places + fraction) * 1000;
    let quotient = rounded(numerator, places);
    // The quotient times the divisor, plus a remainder below the divisor, is the dividend.
    vstd::arithmetic::div_mod::lemma_fundamental_div_mod(
        (2 * numerator + places) as int,
        (2 * places) as int,
    );
    let remainder = (2 * numerator + places) % (2 * places);
    assert(quotient >= whole * 1000) by (nonlinear_arith)
        requires
            2 * numerator + places == (2 * places) * quotient + remainder,
            0 <= remainder < 2 * places,
            numerator == (whole * places + fraction) * 1000,
            places >= 1,
    ;
}

/// The first three decimals in thousandths, and the fourth.
spec fn head_and_fourth(fraction: Seq<u8>) -> (nat, nat) {
    let digit = |i: int| -> nat
        {
            match crate::text::spec_digit_value(fraction[i], Radix::Decimal) {
                Some(v) => v as nat,
                None => 0,
            }
        };
    if fraction.len() == 0 {
        (0, 0)
    } else if fraction.len() == 1 {
        (digit(0) * 100, 0)
    } else if fraction.len() == 2 {
        (digit(0) * 100 + digit(1) * 10, 0)
    } else if fraction.len() == 3 {
        (digit(0) * 100 + digit(1) * 10 + digit(2), 0)
    } else {
        (digit(0) * 100 + digit(1) * 10 + digit(2), digit(3))
    }
}

/// The thousandths of a number, from its whole part, its first three
/// decimals and its fourth.
proof fn lemma_thousandths_by_digits(whole: Seq<u8>, fraction: Seq<u8>)
    requires
        all_digits(fraction, Radix::Decimal),
    ensures
        thousandths(whole, fraction) == digits_value(whole, Radix::Decimal) * 1000
            + head_and_fourth(fraction).0 + (if head_and_fourth(fraction).1 >= 5 {
            1nat
        } else {
            0nat
        }),
{
    let w = digits_value(whole, Radix::Decimal);
    let f = digits_value(fraction, Radix::Decimal);
    reveal_with_fuel(pow10, 5);
    reveal_with_fuel(digits_value, 2);
    assert(pow10(0) == 1 && pow10(1) == 10 && pow10(2) == 100 && pow10(3) == 1000 && pow10(4)
        == 10000);
    assert(Radix::Decimal.base() == 10);
    let digit = |i: int| -> nat
        {
            match crate::text::spec_digit_value(fraction[i], Radix::Decimal) {
                Some(v) => v as nat,
                None => 0,
            }
        };
    if fraction.len() == 0 {
        assert(f == 0);
        lemma_exact(w, f, 1000, 1);
    } else if fraction.len() == 1 {
        assert(fraction.drop_last().len() == 0);
        assert(fraction.last() == fraction[0]);
        assert(f == digit(0));
        lemma_exact(w, f, 100, 10);
    } else if fraction.len() == 2 {
        let one = fraction.drop_last();
        assert(one.drop_last().len() == 0);
        assert(one.last() == fraction[0]);
        assert(fraction.last() == fraction[1]);
        assert(digits_value(one, Radix::Decimal) == digit(0));
        assert(f == digit(0) * 10 + digit(1));
        lemma_exact(w, f, 10, 100);
    } else if fraction.len() == 3 {
        let two = fraction.drop_last();
        let one = two.drop_last();
        assert(one.drop_last().len() == 0);
        assert(one.last() == fraction[0]);
        assert(two.last() == fraction[1]);
        assert(fraction.last() == fraction[2]);
        assert(digits_value(one, Radix::Decimal) == digit(0));
        assert(digits_value(two, Radix::Decimal) == digit(0) * 10 + digit(1));
        assert(f == (digit(0) * 10 + digit(1)) * 10 + digit(2));
        lemma_exact(w, f, 1, 1000);
    } else {
        let head = fraction.take(3);
        let rest = fraction.skip(4);
        let front = fraction.take(4);
        assert(fraction =~= front + rest);
        lemma_digits_concat(front, rest);
        assert(front.drop_last() =~= head);
        assert(front.last() == fraction[3]);
        let two = head.drop_last();
        let one = two.drop_last();
        assert(one.drop_last().len() == 0);
        assert(one.last() == fraction[0]);
        assert(two.last() == fraction[1]);
        assert(head.last() == fraction[2]);
        assert(digits_value(one, Radix::Decimal) == digit(0));
        assert(digits_value(two, Radix::Decimal) == digit(0) * 10 + digit(1));
        assert(digits_value(head, Radix::Decimal) == (digit(0) * 10 + digit(1)) * 10 + digit(2));
        assert forall|i: int| 0 <= i < rest.len() implies (#[trigger] crate::text::spec_digit_value(
            rest[i],
            Radix::Decimal,
        )) is Some by {
            assert(rest[i] == fraction[i + 4]);
        }
        lemma_digits_bound(rest);
        let unit = pow10(rest.len());
        lemma_pow10_splits(4, rest.len());
        assert(pow10(fraction.len()) == 10000 * unit);
        assert(crate::text::spec_digit_value(fraction[3], Radix::Decimal) is Some);
        let h = digits_value(head, Radix::Decimal);
        let fourth = head_and_fourth(fraction).1;
        assert(h == head_and_fourth(fraction).0);
        assert(digits_value(front, Radix::Decimal) == h * 10 + fourth);
        assert(f == (h * 10 + fourth) * unit + digits_value(rest, Radix::Decimal));
        lemma_rounds_by_fourth_decimal(w, h, fourth, digits_value(rest, Radix::Decimal), unit);
    }
}

/// Ten to a sum is the product of the powers.
pub proof fn lemma_pow10_splits(a: nat, b: nat)
    ensures
        pow10(a + b) == pow10(a) * pow10(b),
    decreases a,
{
    if a > 0 {
        lemma_pow10_splits((a - 1) as nat, b);
        assert(pow10(a + b) == 10 * pow10((a - 1 + b) as nat));
        assert(10 * (pow10((a - 1) as nat) * pow10(b)) == (10 * pow10((a - 1) as nat)) * pow10(b))
            by (nonlinear_arith);
    } else {
        assert(pow10(0) * pow10(b) == pow10(b)) by (nonlinear_arith)
            requires
                pow10(0) == 1,
        ;
    }
}

/// Finds the first `byte` in `text`.
pub fn find_first(text: &[u8], byte: u8) -> (at: usize)
    ensures
        at == first_index(text@, byte),
        at <= text@.len(),
        at < text@.len() ==> text@[at as int] == byte,
        forall|k: int| 0 <= k < at ==> text@[k] != byte,
{
    let length = text.len();
    let mut at: usize = 0;
    proof {
        assert(text@.skip(0) =~= text@);
    }
    while at < length && text[at] != byte
        invariant
            at <= length,
            length == text@.len(),
            first_index(text@, byte) == at + first_index(text@.skip(at as int), byte),
            forall|k: int| 0 <= k < at ==> text@[k] != byte,
        decreases length - at,
    {
        proof {
            assert(text@.skip(at as int)[0] == text@[at as int]);
            assert(text@.skip(at as int).skip(1) =~= text@.skip(at + 1));
        }
        at = at + 1;
    }
    proof {
        if at < length {
            assert(text@.skip(at as int)[0] == text@[at as int]);
        } else {
            assert(text@.skip(at as int).len() == 0);
        }
    }
    at
}

/// The value of the digits of `text`, if they are digits and their value
/// is at most `u32::MAX`.
fn whole_value(text: &[u8]) -> (value: Option<u32>)
    ensures
        value matches Some(v) ==> all_digits(text@, Radix::Decimal) && v == digits_value(
            text@,
            Radix::Decimal,
        ),
        value is None ==> !all_digits(text@, Radix::Decimal) || digits_value(text@, Radix::Decimal)
            > u32::MAX,
{
    if text.len() == 0 {
        return Some(0);
    }
    if text[0] == 43 {
        assert(crate::text::spec_digit_value(text@[0], Radix::Decimal) is None);
        return None;
    }
    crate::text::parse_unsigned(text, Radix::Decimal, u32::MAX)
}

/// Parses decimal text into thousandths, rounded to the nearest.
pub fn parse_thousandths(text: &[u8]) -> (value: Option<u32>)
    ensures
        value == spec_parse_thousandths(text@),
{
    let length = text.len();
    let point = find_first(text, 46);
    let whole = slice_subrange(text, 0, point);
    let fraction = if point < length {
        slice_subrange(text, point + 1, length)
    } else {
        slice_subrange(text, length, length)
    };
    proof {
        assert(whole@ =~= whole_part(text@));
        assert(fraction@ =~= fraction_part(text@));
    }
    if whole.len() == 0 && fraction.len() == 0 {
        return None;
    }
    let mut head: u64 = 0;
    let mut fourth: u32 = 0;
    let mut i: usize = 0;
    while i < fraction.len()
        invariant
            i <= fraction@.len(),
            fraction@ == fraction_part(text@),
            all_digits(fraction@.take(i as int), Radix::Decimal),
            (head as nat, fourth as nat) == head_and_fourth(fraction@.take(i as int)),
            head <= 999,
            fourth <= 9,
        decreases fraction@.len() - i,
    {
        let ghost shorter = fraction@.take(i as int);
        let ghost longer = fraction@.take(i + 1);
        match digit_value(fraction[i], Radix::Decimal) {
            None => {
                proof {
                    assert(crate::text::spec_digit_value(fraction@[i as int], Radix::Decimal)
                        is None);
                    assert(!all_digits(fraction@, Radix::Decimal));
                }
                return None;
            },
            Some(digit) => {
                proof {
                    assert forall|j: int| 0 <= j < longer.len() implies (
                    #[trigger] crate::text::spec_digit_value(longer[j], Radix::Decimal)) is Some by {
                        if j < shorter.len() {
                            assert(longer[j] == shorter[j]);
                        }
                    }
                    assert forall|j: int| 0 <= j < shorter.len() implies longer[j] == shorter[j] by {}
                }
                if i == 0 {
                    head = digit as u64 * 100;
                } else if i == 1 {
                    head = head + digit as u64 * 10;
                } else if i == 2 {
                    head = head + digit as u64;
                } else if i == 3 {
                    fourth = digit;
                }
            },
        }
        i = i + 1;
    }
    proof {
        assert(fraction@.take(fraction@.len() as int) =~= fraction@);
        lemma_thousandths_by_digits(whole@, fraction@);
    }
    match whole_value(whole) {
        None => {
            proof {
                if all_digits(whole@, Radix::Decimal) {
                    lemma_pow10_positive(fraction@.len());
                    lemma_thousandths_at_least(
                        digits_value(whole@, Radix::Decimal),
                        digits_value(fraction@, Radix::Decimal),
                        pow10(fraction@.len()),
                    );
                }
            }
            None
        },
        Some(units) => {
            let carry: u64 = if fourth >= 5 {
                1
            } else {
                0
            };
            let total: u64 = units as u64 * 1000 + head + carry;
            if total > u32::MAX as u64 {
                None
            } else {
                Some(total as u32)
            }
        },
    }
}

/// Ten to any power is positive.
pub proof fn lemma_pow10_positive(n: nat)
    ensures
        pow10(n) >= 1,
    decreases n,
{
    if n > 0 {
        lemma_pow10_positive((n - 1) as nat);
    }
}

/// Rounding gives the nearest integer: the result lies within a half of
/// the quotient, and a quotient exactly between two integers goes up.
pub proof fn lemma_rounded_is_nearest(numerator: nat, denominator: nat)
    requires
        denominator >= 1,
    ensures
        2 * numerator - denominator < 2 * rounded(numerator, denominator) * denominator <= 2
            * numerator + denominator,
{
    let quotient = rounded(numerator, denominator);
    vstd::arithmetic::div_mod::lemma_fundamental_div_mod(
        (2 * numerator + denominator) as int,
        (2 * denominator) as int,
    );
    let remainder = (2 * numerator + denominator) % (2 * denominator);
    assert(2 * numerator - denominator < 2 * quotient * denominator <= 2 * numerator + denominator)
        by (nonlinear_arith)
        requires
            2 * numerator + denominator == (2 * denominator) * quotient + remainder,
            0 <= remainder < 2 * denominator,
    ;
}

} // verus!
