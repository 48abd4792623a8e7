//! Exact percentages: a part of a whole, compared and rounded without
//! leaving the integers.

use crate::text::{decimal, digit_char, digit_text, push_decimal};
use vstd::arithmetic::div_mod::{
    lemma_fundamental_div_mod,
    lemma_fundamental_div_mod_converse,
};
use vstd::prelude::*;
use vstd::string::*;

verus! {

/// Tells whether `part` is at least `threshold` percent of `whole`. Nothing
/// is a percentage of an empty whole.
pub open spec fn percent_at_least(part: nat, whole: nat, threshold: nat) -> bool {
    whole > 0 && 100 * part >= threshold * whole
}

/// `part` as a percentage of `whole`, rounded to the nearest whole number,
/// and to the even one where two are equally near. Of an empty whole it
/// is zero.
pub open spec fn percent_rounded(part: nat, whole: nat) -> nat {
    if whole == 0 {
        0
    } else {
        let floor = (100 * part) / whole;
        let rest = (100 * part) % whole;
        if 2 * rest > whole || (2 * rest == whole && floor % 2 == 1) {
            floor + 1
        } else {
            floor
        }
    }
}

/// The rounded percentage is a nearest whole number: it is off by half a
/// percent at most.
pub proof fn lemma_percent_rounded_nearest(part: nat, whole: nat)
    requires
        whole > 0,
    ensures
        -(whole as int) <= 2 * (percent_rounded(part, whole) * whole - 100 * part) <= whole,
{
    let floor = (100 * part) / whole;
    let rest = (100 * part) % whole;
    lemma_fundamental_div_mod((100 * part) as int, whole as int);
    assert((floor + 1) * whole == floor * whole + whole) by (nonlinear_arith);
    assert(whole * floor == floor * whole) by (nonlinear_arith);
}

/// A part that is no more than the whole is no more than a hundred percent.
pub proof fn lemma_percent_within_hundred(part: nat, whole: nat)
    requires
        part <= whole,
    ensures
        percent_rounded(part, whole) <= 100,
{
    if whole > 0 {
        let floor = (100 * part) / whole;
        let rest = (100 * part) % whole;
        lemma_fundamental_div_mod((100 * part) as int, whole as int);
        assert(floor < 100 || (floor == 100 && rest == 0)) by (nonlinear_arith)
            requires
                100 * part == whole * floor + rest,
                0 <= rest < whole,
                part <= whole,
                0 <= floor,
        ;
    }
}

/// With at least one hundred, a number's last two digits are written after
/// the digits of its hundreds.
pub proof fn lemma_decimal_hundreds(hundreds: nat, units: nat)
    requires
        hundreds > 0,
        units < 100,
    ensures
        decimal(100 * hundreds + units) == decimal(hundreds) + seq![
            digit_char(units / 10),
            digit_char(units % 10),
        ],
{
    let n = 100 * hundreds + units;
    let tens = 10 * hundreds + units / 10;
    assert(n / 10 == tens);
    assert(n % 10 == units % 10);
    assert(tens / 10 == hundreds);
    assert(tens % 10 == units / 10);
    assert(decimal(n) == decimal(tens).push(digit_char(units % 10)));
    assert(decimal(tens) == decimal(hundreds).push(digit_char(units / 10)));
    assert(decimal(hundreds).push(digit_char(units / 10)).push(digit_char(units % 10))
        =~= decimal(hundreds) + seq![digit_char(units / 10), digit_char(units % 10)]);
}

/// Divides one hundred times `part` by `whole` without ever forming the
/// product: the quotient comes as its hundreds and its last two digits,
/// beside the remainder.
pub fn hundredfold(part: u128, whole: u128) -> (split: (u128, u8, u128))
    requires
        whole > 0,
    ensures
        split.0 == part / whole,
        split.1 < 100,
        100 * split.0 + split.1 == (100 * part) / (whole as int),
        split.2 == (100 * part) % (whole as int),
{
    let hundreds: u128 = part / whole;
    let step: u128 = part % whole;
    let mut units: u8 = 0;
    let mut rest: u128 = 0;
    let mut i: u8 = 0;
    while i < 100
        invariant
            i <= 100,
            units <= i,
            step < whole,
            rest < whole,
            units * whole + rest == i * step,
        decreases 100 - i,
    {
        let ghost before_units = units;
        let ghost before_rest = rest;
        if step >= whole - rest {
            rest = step - (whole - rest);
            units = units + 1;
        } else {
            rest = rest + step;
        }
        i = i + 1;
        assert(units * whole + rest == i * step) by (nonlinear_arith)
            requires
                before_units * whole + before_rest == (i - 1) * step,
                (units == before_units + 1 && rest == before_rest + step - whole) || (units
                    == before_units && rest == before_rest + step),
        ;
    }
    proof {
        lemma_fundamental_div_mod(part as int, whole as int);
        assert(units < 100) by (nonlinear_arith)
            requires
                units * whole + rest == 100 * step,
                step < whole,
                0 <= rest,
                0 <= units,
        ;
        assert(100 * part == (100 * hundreds + units) * whole + rest) by (nonlinear_arith)
            requires
                part == whole * hundreds + step,
                units * whole + rest == 100 * step,
        ;
        lemma_fundamental_div_mod_converse(
            100 * part,
            whole as int,
            100 * hundreds + units,
            rest as int,
        );
    }
    (hundreds, units, rest)
}

/// A part of a whole, read as a percentage.
#[derive(Debug, Clone, Copy)]
pub struct Percent {
    pub part: u128,
    pub whole: u128,
}

impl Percent {
    /// Tells whether the percentage reaches `threshold`.
    pub fn at_least(&self, threshold: u8) -> (reached: bool)
        ensures
            reached == percent_at_least(self.part as nat, self.whole as nat, threshold as nat),
    {
        if self.whole == 0 {
            return false;
        }
        let (hundreds, units, rest) = hundredfold(self.part, self.whole);
        let ghost floor = 100 * hundreds + units;
        proof {
            lemma_fundamental_div_mod(100 * self.part, self.whole as int);
            assert((100 * self.part >= threshold * self.whole) == (floor >= threshold))
                by (nonlinear_arith)
                requires
                    100 * self.part == self.whole * floor + rest,
                    0 <= rest < self.whole,
            ;
        }
        if hundreds >= 3 {
            true
        } else {
            100 * (hundreds as u16) + (units as u16) >= threshold as u16
        }
    }

    /// The percentage, rounded, in decimal digits.
    pub fn rounded_text(&self) -> (text: String)
        ensures
            text@ == decimal(percent_rounded(self.part as nat, self.whole as nat)),
    {
        let mut text = String::new();
        if self.whole == 0 {
            push_decimal(&mut text, 0);
            return text;
        }
        let (floor_hundreds, floor_units, rest) = hundredfold(self.part, self.whole);
        let up: bool = rest > self.whole - rest || (rest == self.whole - rest && floor_units % 2
            == 1);
        let ghost rounded = percent_rounded(self.part as nat, self.whole as nat);
        assert(rounded == 100 * floor_hundreds + floor_units + if up {
            1int
        } else {
            0int
        });
        let mut hundreds: u128 = floor_hundreds;
        let mut units: u8 = floor_units;
        if up {
            if floor_units == 99 {
                proof {
                    lemma_fundamental_div_mod(self.part as int, self.whole as int);
                    assert(floor_hundreds < u128::MAX) by (nonlinear_arith)
                        requires
                            self.part == self.whole * floor_hundreds + (self.part % self.whole),
                            0 <= self.part % self.whole,
                            self.whole >= 2,
                            self.part <= u128::MAX,
                            0 <= floor_hundreds,
                    ;
                }
                hundreds = floor_hundreds + 1;
                units = 0;
            } else {
                units = floor_units + 1;
            }
        }
        assert(rounded == 100 * hundreds + units);
        if hundreds > 0 {
            push_decimal(&mut text, hundreds);
            text.append(digit_text(units / 10));
            text.append(digit_text(units % 10));
            proof {
                lemma_decimal_hundreds(hundreds as nat, units as nat);
                assert(text@ =~= decimal(rounded));
            }
        } else {
            push_decimal(&mut text, units as u128);
        }
        text
    }
}

} // verus!
