//! Numbers of the format binary64, read from their bits.
//!
//! Prices and adjustments are configured as fractions, and a fee is computed from them in that
//! format: every product is rounded to the nearest number that the format has.
use vstd::arithmetic::div_mod::{
    lemma_basic_div, lemma_div_is_ordered, lemma_fundamental_div_mod,
    lemma_fundamental_div_mod_converse,
};
use vstd::arithmetic::power2::{
    lemma2_to64, lemma2_to64_rest, lemma_pow2_adds, lemma_pow2_pos, lemma_pow2_strictly_increases,
    lemma_pow2_unfold, pow2,
};
use vstd::prelude::*;

verus! {

/// A number of the format binary64.
#[derive(Clone, Copy, Debug, PartialEq, Eq)]
pub struct Quantity {
    /// The sign in the highest bit, then 11 bits of exponent, then 52 bits of fraction.
    pub bits: u64,
}

impl Quantity {
    /// Whether the sign is negative.
    pub open spec fn signed(self) -> bool {
        self.bits >= 0x8000_0000_0000_0000
    }

    /// The exponent field.
    pub open spec fn exponent(self) -> nat {
        (self.bits as nat / 0x10_0000_0000_0000) % 0x800
    }

    /// The fraction field.
    pub open spec fn fraction(self) -> nat {
        self.bits as nat % 0x10_0000_0000_0000
    }

    /// Whether the number is neither infinite nor an error value.
    pub open spec fn finite(self) -> bool {
        self.exponent() != 0x7FF
    }

    /// The significand of a finite number.
    pub open spec fn significand(self) -> nat {
        if self.exponent() == 0 {
            self.fraction()
        } else {
            0x10_0000_0000_0000 + self.fraction()
        }
    }

    /// The absolute value of a finite number, times the 1075th power of two.
    pub open spec fn scaled(self) -> nat {
        self.significand() * pow2(
            if self.exponent() == 0 {
                1
            } else {
                self.exponent()
            },
        )
    }

    /// Whether a finite number is less than zero.
    pub open spec fn below_zero(self) -> bool {
        self.signed() && self.scaled() > 0
    }

    /// Whether a finite number is greater than zero.
    pub open spec fn above_zero(self) -> bool {
        !self.signed() && self.scaled() > 0
    }

    proof fn lemma_scaled_positive(self)
        ensures
            self.scaled() > 0 <==> self.significand() > 0,
    {
        let power = pow2(
            if self.exponent() == 0 {
                1
            } else {
                self.exponent()
            },
        );
        lemma_pow2_pos(
            if self.exponent() == 0 {
                1
            } else {
                self.exponent()
            },
        );
        let significand = self.significand();
        assert(significand * power > 0 <==> significand > 0) by (nonlinear_arith)
            requires
                power > 0,
        ;
    }

    fn fields(&self) -> (fields: (bool, u64, u64))
        ensures
            fields.0 == self.signed(),
            fields.1 == self.exponent() < 0x800,
            fields.2 == self.significand() < 0x20_0000_0000_0000,
    {
        let exponent: u64 = (self.bits / 0x10_0000_0000_0000) % 0x800;
        let fraction: u64 = self.bits % 0x10_0000_0000_0000;
        let significand: u64 = if exponent == 0 {
            fraction
        } else {
            0x10_0000_0000_0000 + fraction
        };
        (self.bits >= 0x8000_0000_0000_0000, exponent, significand)
    }

    /// Whether the number is finite.
    pub fn is_finite(&self) -> (finite: bool)
        ensures
            finite == self.finite(),
    {
        let (_, exponent, _) = self.fields();
        exponent != 0x7FF
    }

    /// Whether the number is less than zero. Negative zero is not.
    pub fn is_below_zero(&self) -> (below: bool)
        ensures
            below == self.below_zero(),
    {
        let (signed, _, significand) = self.fields();
        proof {
            self.lemma_scaled_positive();
        }
        signed && significand > 0
    }

    /// Whether the number is greater than zero.
    pub fn is_above_zero(&self) -> (above: bool)
        ensures
            above == self.above_zero(),
    {
        let (signed, _, significand) = self.fields();
        proof {
            self.lemma_scaled_positive();
        }
        !signed && significand > 0
    }
}

/// The distance between the numbers of 53 significant bits around `value`.
pub open spec fn spacing(value: nat) -> nat
    decreases value,
{
    if value < 0x20_0000_0000_0000 {
        1
    } else {
        2 * spacing(value / 2)
    }
}

/// The number of 53 significant bits that is nearest to `value`; of two equally near ones, the one
/// whose last bit is zero.
pub open spec fn nearest(value: nat) -> nat {
    let unit = spacing(value);
    let below = value / unit;
    let rest = value % unit;
    if 2 * rest < unit || (2 * rest == unit && below % 2 == 0) {
        below * unit
    } else {
        (below + 1) * unit
    }
}

/// The product of a whole number and a factor, computed in binary64 and rounded up to the next
/// whole number, where that is a number of 64 bits that is not less than zero.
///
/// The whole number is converted to the format first, and the product is rounded to the format
/// before it is rounded up. A product that is not finite is no number; one between minus one and
/// zero rounds up to zero.
pub open spec fn product_rounded_up(count: nat, factor: Quantity) -> Option<nat> {
    let product = nearest(nearest(count) * factor.scaled());
    let one = pow2(1075);
    if !factor.finite() {
        None
    } else if factor.signed() {
        if product < one {
            Some(0)
        } else {
            None
        }
    } else {
        let whole = (product + one - 1) as nat / one;
        if whole < 0x1_0000_0000_0000_0000 {
            Some(whole)
        } else {
            None
        }
    }
}

proof fn lemma_spacing(value: nat)
    ensures
        spacing(value) >= 1,
        value >= 0x20_0000_0000_0000 ==> 0x10_0000_0000_0000 * spacing(value) <= value,
        value < 0x20_0000_0000_0000 * spacing(value),
    decreases value,
{
    if value >= 0x20_0000_0000_0000 {
        lemma_spacing(value / 2);
    }
}

/// A multiple of the distance is the number nearest to itself.
proof fn lemma_exact(value: nat, below: nat, unit: nat)
    requires
        unit == spacing(value),
        unit >= 1,
        value == below * unit,
    ensures
        nearest(value) == value,
{
    lemma_fundamental_div_mod_converse(
        value as int,
        unit as int,
        below as int,
        0,
    );
}

/// Where `value` is at least the least number of 53 bits around `bound`, it lies no farther apart
/// from its neighbours.
proof fn lemma_same_spacing(value: nat, bound: nat)
    requires
        value <= bound,
        0x10_0000_0000_0000 * spacing(bound) <= value,
    ensures
        spacing(value) == spacing(bound),
    decreases bound,
{
    if bound >= 0x20_0000_0000_0000 {
        lemma_spacing(bound / 2);
        lemma_same_spacing(value / 2, bound / 2);
    }
}

/// A number of 53 significant bits is nearest to itself.
proof fn lemma_nearest_is_exact(value: nat)
    ensures
        nearest(nearest(value)) == nearest(value),
{
    let unit = spacing(value);
    lemma_spacing(value);
    let below = value / unit;
    lemma_fundamental_div_mod(value as int, unit as int);
    let rounded = nearest(value);
    if value < 0x20_0000_0000_0000 {
        lemma_exact(value, value, 1);
    } else {
        assert(below >= 0x10_0000_0000_0000) by (nonlinear_arith)
            requires
                value == unit * below + value % unit,
                value % unit < unit,
                0x10_0000_0000_0000 * unit <= value,
                unit >= 1,
        ;
        assert(below < 0x20_0000_0000_0000) by (nonlinear_arith)
            requires
                value == unit * below + value % unit,
                value % unit >= 0,
                value < 0x20_0000_0000_0000 * unit,
                unit >= 1,
        ;
        let digits: nat = if rounded == below * unit {
            below
        } else {
            (below + 1) as nat
        };
        assert(rounded == digits * unit);
        assert(0x10_0000_0000_0000 * unit <= digits * unit) by (nonlinear_arith)
            requires
                digits >= 0x10_0000_0000_0000,
        ;
        if digits < 0x20_0000_0000_0000 {
            let top = (0x20_0000_0000_0000 * unit - 1) as nat;
            assert(value <= top);
            lemma_top_spacing(value, top);
            assert(digits * unit <= top) by (nonlinear_arith)
                requires
                    digits + 1 <= 0x20_0000_0000_0000,
                    unit >= 1,
                    top == 0x20_0000_0000_0000 * unit - 1,
            ;
            lemma_same_spacing(rounded, top);
            lemma_exact(rounded, digits, unit);
        } else {
            assert(digits == 0x20_0000_0000_0000);
            lemma_power_spacing(value);
            assert(rounded == 0x10_0000_0000_0000 * (2 * unit)) by (nonlinear_arith)
                requires
                    rounded == digits * unit,
                    digits == 0x20_0000_0000_0000,
            ;
            lemma_exact(rounded, 0x10_0000_0000_0000, 2 * unit);
        }
    }
}

/// Up to the next power of two the distance stays the same.
proof fn lemma_top_spacing(value: nat, top: nat)
    requires
        value <= top,
        top < 0x20_0000_0000_0000 * spacing(value),
    ensures
        spacing(top) == spacing(value),
    decreases top,
{
    if value >= 0x20_0000_0000_0000 {
        lemma_top_spacing(value / 2, top / 2);
    }
}

/// At the next power of two the distance doubles.
proof fn lemma_power_spacing(value: nat)
    ensures
        spacing(0x20_0000_0000_0000 * spacing(value)) == 2 * spacing(value),
    decreases value,
{
    if value < 0x20_0000_0000_0000 {
        assert(spacing(0x10_0000_0000_0000) == 1);
    } else {
        let half = spacing(value / 2);
        lemma_power_spacing(value / 2);
        lemma_spacing(value / 2);
        assert((0x20_0000_0000_0000 * spacing(value)) / 2 == 0x20_0000_0000_0000 * half);
    }
}

/// Rounding never falls below a number of 53 significant bits.
proof fn lemma_nearest_covers(exact: nat, value: nat)
    requires
        nearest(exact) == exact,
        exact <= value,
    ensures
        exact <= nearest(value),
{
    let unit = spacing(value);
    lemma_spacing(value);
    lemma_spacing(exact);
    lemma_fundamental_div_mod(value as int, unit as int);
    let below = value / unit;
    let rest = value % unit;
    assert((below + 1) * unit == below * unit + unit) by (nonlinear_arith);
    assert(below * unit == unit * below) by (nonlinear_arith);
    if value < 0x20_0000_0000_0000 {
        lemma_exact(value, value, 1);
    } else if exact >= 0x10_0000_0000_0000 * unit {
        lemma_same_spacing(exact, value);
        lemma_fundamental_div_mod(exact as int, unit as int);
        let digits = exact / unit;
        assert((digits + 1) * unit == digits * unit + unit) by (nonlinear_arith);
        assert(digits * unit == unit * digits) by (nonlinear_arith);
        assert(exact == digits * unit);
        assert(digits <= below) by (nonlinear_arith)
            requires
                digits * unit <= below * unit + rest,
                rest < unit,
                unit >= 1,
        ;
        assert(digits * unit <= below * unit) by (nonlinear_arith)
            requires
                digits <= below,
        ;
    } else {
        assert(below >= 0x10_0000_0000_0000) by (nonlinear_arith)
            requires
                value == unit * below + rest,
                rest < unit,
                0x10_0000_0000_0000 * unit <= value,
                unit >= 1,
        ;
        assert(0x10_0000_0000_0000 * unit <= below * unit) by (nonlinear_arith)
            requires
                below >= 0x10_0000_0000_0000,
        ;
    }
}

/// Rounding commutes with doubling.
proof fn lemma_nearest_of_double(value: nat)
    ensures
        nearest(2 * value) == 2 * nearest(value),
{
    let unit = spacing(value);
    lemma_spacing(value);
    if value < 0x20_0000_0000_0000 {
        assert(nearest(value) == value) by {
            lemma_exact(value, value, 1);
        }
        if 2 * value >= 0x20_0000_0000_0000 {
            assert((2 * value) / 2 == value);
            assert(spacing(2 * value) == 2);
            lemma_exact(2 * value, value, 2);
        } else {
            lemma_exact(2 * value, 2 * value, 1);
        }
    } else {
        assert((2 * value) / 2 == value);
        assert(spacing(2 * value) == 2 * unit);
        let below = value / unit;
        let rest = value % unit;
        lemma_fundamental_div_mod(value as int, unit as int);
        assert(2 * value == below * (2 * unit) + 2 * rest) by (nonlinear_arith)
            requires
                value == unit * below + rest,
        ;
        lemma_fundamental_div_mod_converse(
            (2 * value) as int,
            (2 * unit) as int,
            below as int,
            (2 * rest) as int,
        );
        assert(below * (2 * unit) == 2 * (below * unit)) by (nonlinear_arith);
        assert((below + 1) * (2 * unit) == 2 * ((below + 1) * unit)) by (nonlinear_arith);
    }
}

/// Rounding commutes with a shift.
proof fn lemma_nearest_of_multiple(value: nat, exponent: nat)
    ensures
        nearest(value * pow2(exponent)) == nearest(value) * pow2(exponent),
    decreases exponent,
{
    if exponent == 0 {
        lemma2_to64();
    } else {
        let rest = (exponent - 1) as nat;
        lemma_nearest_of_multiple(value, rest);
        lemma_nearest_of_double(value * pow2(rest));
        lemma_pow2_unfold(exponent);
        let power = pow2(rest);
        let rounded = nearest(value);
        assert(value * (2 * power) == 2 * (value * power)) by (nonlinear_arith);
        assert(rounded * (2 * power) == 2 * (rounded * power)) by (nonlinear_arith);
    }
}

/// The distance between the numbers of 53 significant bits around `value`.
fn find_spacing(value: u128) -> (unit: u128)
    requires
        value < 0x100_0000_0000_0000_0000_0000_0000_0000,
    ensures
        unit == spacing(value as nat),
{
    let mut unit: u128 = 1;
    let mut rest: u128 = value;
    while rest >= 0x20_0000_0000_0000
        invariant
            value < 0x100_0000_0000_0000_0000_0000_0000_0000,
            unit >= 1,
            unit * rest <= value,
            unit * spacing(rest as nat) == spacing(value as nat),
        decreases rest,
    {
        assert(2 * unit * (rest / 2) <= unit * rest) by (nonlinear_arith)
            requires
                unit >= 1,
        ;
        assert(2 * unit * spacing((rest / 2) as nat) == unit * (2 * spacing((rest / 2) as nat)))
            by (nonlinear_arith);
        assert(unit * 0x20_0000_0000_0000 <= unit * rest) by (nonlinear_arith)
            requires
                unit >= 1,
                rest >= 0x20_0000_0000_0000,
        ;
        unit = unit * 2;
        rest = rest / 2;
    }
    assert(spacing(rest as nat) == 1);
    assert(unit * spacing(rest as nat) == unit) by (nonlinear_arith)
        requires
            spacing(rest as nat) == 1,
    ;
    unit
}

/// The number of 53 significant bits that is nearest to `value`.
fn round_to_nearest(value: u128) -> (rounded: u128)
    requires
        value < 0x100_0000_0000_0000_0000_0000_0000_0000,
    ensures
        rounded == nearest(value as nat),
        rounded <= 2 * value,
{
    let unit: u128 = find_spacing(value);
    proof {
        lemma_spacing(value as nat);
        lemma_fundamental_div_mod(value as int, unit as int);
    }
    let below: u128 = value / unit;
    let rest: u128 = value % unit;
    assert(below * unit <= value) by (nonlinear_arith)
        requires
            value == unit * below + rest,
    ;
    assert(unit <= value || unit == 1);
    assert((below + 1) * unit == below * unit + unit) by (nonlinear_arith);
    if 2 * rest < unit || (2 * rest == unit && below % 2 == 0) {
        below * unit
    } else {
        (below + 1) * unit
    }
}

/// The powers of two that a number of 128 bits holds with room to spare.
proof fn lemma_power_bound(exponent: nat)
    requires
        exponent < 126,
    ensures
        1 <= pow2(exponent) < 0x4000_0000_0000_0000_0000_0000_0000_0000,
        pow2(126) == 0x4000_0000_0000_0000_0000_0000_0000_0000,
{
    lemma_pow2_pos(exponent);
    lemma_pow2_strictly_increases(exponent, 126);
    lemma_pow2_adds(64, 62);
    lemma2_to64();
    lemma2_to64_rest();
}

/// A power of two.
fn power(exponent: u64) -> (power: u128)
    requires
        exponent < 126,
    ensures
        power == pow2(exponent as nat),
        1 <= power < 0x4000_0000_0000_0000_0000_0000_0000_0000,
{
    let mut power: u128 = 1;
    let mut i: u64 = 0;
    proof {
        lemma2_to64();
    }
    while i < exponent
        invariant
            i <= exponent < 126,
            power == pow2(i as nat),
        decreases exponent - i,
    {
        proof {
            lemma_pow2_unfold((i + 1) as nat);
            lemma_power_bound(i as nat);
        }
        power = 2 * power;
        i = i + 1;
    }
    proof {
        lemma_power_bound(exponent as nat);
    }
    power
}

/// The quotient of `value` and a power of two, rounded up.
fn shifted_up(value: u128, shift: u64) -> (quotient: u128)
    requires
        value <= 0x4000_0000_0000_0000_0000_0000_0000_0000,
    ensures
        quotient == (value + pow2(shift as nat) - 1) as nat / pow2(shift as nat),
{
    if shift < 126 {
        let unit: u128 = power(shift);
        return (value + (unit - 1)) / unit;
    }
    proof {
        let unit = pow2(shift as nat);
        lemma_power_bound(0);
        lemma_pow2_adds(126, (shift - 126) as nat);
        lemma_pow2_pos((shift - 126) as nat);
        let gap = pow2((shift - 126) as nat);
        let base = pow2(126);
        assert(base * gap >= base) by (nonlinear_arith)
            requires
                gap >= 1,
        ;
        if value == 0 {
            lemma_basic_div(unit - 1, unit as int);
        } else {
            lemma_fundamental_div_mod_converse(value + unit - 1, unit as int, 1, value - 1);
        }
    }
    if value == 0 {
        0
    } else {
        1
    }
}

/// A quotient that is rounded up stays the same when both numbers are multiplied by a third.
proof fn lemma_common_factor(value: nat, unit: nat, factor: nat)
    requires
        unit >= 1,
        factor >= 1,
    ensures
        (value * factor + unit * factor - 1) as nat / (unit * factor) == (value + unit - 1) as nat
            / unit,
{
    let quotient = (value + unit - 1) as nat / unit;
    let rest = (value + unit - 1) as nat % unit;
    lemma_fundamental_div_mod(value + unit - 1, unit as int);
    assert(value * factor + unit * factor - 1 == quotient * (unit * factor) + ((1 + rest) * factor
        - 1)) by (nonlinear_arith)
        requires
            value + unit - 1 == unit * quotient + rest,
    ;
    assert(0 <= (1 + rest) * factor - 1 < unit * factor) by (nonlinear_arith)
        requires
            0 <= rest < unit,
            factor >= 1,
    ;
    assert(unit * factor >= 1) by (nonlinear_arith)
        requires
            unit >= 1,
            factor >= 1,
    ;
    lemma_fundamental_div_mod_converse(
        value * factor + unit * factor - 1,
        (unit * factor) as int,
        quotient as int,
        (1 + rest) * factor - 1,
    );
}

/// The product of a whole number and a factor, computed in binary64 and rounded up to the next
/// whole number, where that is a number of 64 bits that is not less than zero.
pub fn round_up_product(count: u64, factor: Quantity) -> (product: Option<u64>)
    ensures
        match product {
            Some(whole) => product_rounded_up(count as nat, factor) == Some(whole as nat),
            None => product_rounded_up(count as nat, factor) is None,
        },
{
    let (signed, field, significand) = factor.fields();
    if field == 0x7FF {
        return None;
    }
    let converted: u128 = round_to_nearest(count as u128);
    let exponent: u64 = if field == 0 {
        1
    } else {
        field
    };
    assert(converted * significand < 0x4_0000_0000_0000_0000 * 0x20_0000_0000_0000)
        by (nonlinear_arith)
        requires
            converted < 0x4_0000_0000_0000_0000,
            significand < 0x20_0000_0000_0000,
    ;
    let digits: u128 = round_to_nearest(converted * (significand as u128));
    let ghost exact = nearest(count as nat) * factor.scaled();
    let ghost one = pow2(1075);
    proof {
        let x = converted as nat;
        let y = significand as nat;
        let z = pow2(exponent as nat);
        assert(x * (y * z) == (x * y) * z) by (nonlinear_arith);
        lemma_nearest_of_multiple((converted * significand) as nat, exponent as nat);
        assert(nearest(exact) == digits * pow2(exponent as nat));
        lemma_pow2_pos(1075);
    }
    if exponent >= 1075 {
        let shift: u64 = exponent - 1075;
        let ghost gap = pow2(shift as nat);
        proof {
            lemma_pow2_adds(shift as nat, 1075);
            lemma_pow2_pos(shift as nat);
            assert(digits * (gap * one) == (digits * gap) * one) by (nonlinear_arith);
            lemma_fundamental_div_mod_converse(
                (digits * gap) * one + one - 1,
                one as int,
                (digits * gap) as int,
                one - 1,
            );
            if digits > 0 {
                assert(digits * gap >= digits && digits * gap >= gap) by (nonlinear_arith)
                    requires
                        digits >= 1,
                        gap >= 1,
                ;
                let whole = digits * gap;
                assert(whole * one >= one) by (nonlinear_arith)
                    requires
                        whole >= 1,
                        one >= 1,
                ;
            } else {
                assert(digits * gap == 0 && 0 * one == 0) by (nonlinear_arith)
                    requires
                        digits == 0,
                ;
            }
        }
        if digits == 0 {
            return Some(0);
        }
        if signed || digits >= 0x1_0000_0000_0000_0000 {
            return None;
        }
        if shift >= 64 {
            proof {
                if shift > 64 {
                    lemma_pow2_strictly_increases(64, shift as nat);
                }
                lemma2_to64();
                lemma2_to64_rest();
            }
            return None;
        }
        let unit: u128 = power(shift);
        proof {
            lemma_pow2_strictly_increases(shift as nat, 64);
            lemma2_to64();
            lemma2_to64_rest();
            assert(digits * unit < 0x1_0000_0000_0000_0000 * 0x1_0000_0000_0000_0000)
                by (nonlinear_arith)
                requires
                    digits < 0x1_0000_0000_0000_0000,
                    unit < 0x1_0000_0000_0000_0000,
            ;
        }
        let whole: u128 = digits * unit;
        if whole < 0x1_0000_0000_0000_0000 {
            Some(whole as u64)
        } else {
            None
        }
    } else {
        let shift: u64 = 1075 - exponent;
        let ghost unit = pow2(shift as nat);
        let ghost base = pow2(exponent as nat);
        proof {
            lemma_pow2_adds(shift as nat, exponent as nat);
            lemma_pow2_pos(shift as nat);
            lemma_pow2_pos(exponent as nat);
            lemma_common_factor(digits as nat, unit, base);
            assert(digits * base < unit * base <==> digits < unit) by (nonlinear_arith)
                requires
                    base >= 1,
            ;
        }
        if signed {
            let above: u128 = shifted_up(digits + 1, shift);
            proof {
                if digits < unit {
                    lemma_fundamental_div_mod_converse(
                        digits + unit,
                        unit as int,
                        1,
                        digits as int,
                    );
                } else {
                    lemma_div_is_ordered(
                        (2 * unit) as int,
                        digits + unit,
                        unit as int,
                    );
                    lemma_fundamental_div_mod_converse((2 * unit) as int, unit as int, 2, 0);
                }
            }
            if above == 1 {
                Some(0)
            } else {
                None
            }
        } else {
            let whole: u128 = shifted_up(digits, shift);
            if whole < 0x1_0000_0000_0000_0000 {
                Some(whole as u64)
            } else {
                None
            }
        }
    }
}

/// A factor of at least one never gives less than the count: what comes out is at least the number
/// of the format that is nearest to the count, and below the 53rd power of two that is the count
/// itself.
pub proof fn product_covers_the_count(count: nat, factor: Quantity)
    requires
        factor.finite(),
        !factor.signed(),
        factor.scaled() >= pow2(1075),
        product_rounded_up(count, factor) is Some,
    ensures
        product_rounded_up(count, factor)->0 >= nearest(count),
        count < 0x20_0000_0000_0000 ==> nearest(count) == count,
{
    let one = pow2(1075);
    lemma_pow2_pos(1075);
    let converted = nearest(count);
    let exact = converted * one;
    let product = converted * factor.scaled();
    lemma_nearest_is_exact(count);
    lemma_nearest_of_multiple(converted, 1075);
    assert(exact <= product) by (nonlinear_arith)
        requires
            exact == converted * one,
            product == converted * factor.scaled(),
            one <= factor.scaled(),
    ;
    lemma_nearest_covers(exact, product);
    let rounded = nearest(product);
    lemma_fundamental_div_mod_converse(exact + one - 1, one as int, converted as int, one - 1);
    lemma_div_is_ordered(exact + one - 1, rounded + one - 1, one as int);
    if count < 0x20_0000_0000_0000 {
        lemma_exact(count, count, 1);
    }
}

/// The number whose sign, exponent field and fraction field these are.
pub open spec fn number_of(signed: bool, exponent: nat, fraction: nat) -> Quantity {
    Quantity {
        bits: ((if signed {
            0x8000_0000_0000_0000int
        } else {
            0
        }) + exponent * 0x10_0000_0000_0000 + fraction) as u64,
    }
}

/// A number is read from its three fields, for all of their values. It is finite unless its
/// exponent field is the greatest; its magnitude is its fraction, with a leading one unless the
/// exponent field is zero, shifted by that field; and its sign counts unless it is zero.
pub proof fn numbers_are_read_from_their_fields(signed: bool, exponent: nat, fraction: nat)
    requires
        exponent < 0x800,
        fraction < 0x10_0000_0000_0000,
    ensures
        ({
            let number = number_of(signed, exponent, fraction);
            let zero = exponent == 0 && fraction == 0;
            &&& number.finite() <==> exponent < 0x7FF
            &&& number.signed() == signed
            &&& exponent > 0 ==> number.scaled() == (0x10_0000_0000_0000 + fraction) * pow2(
                exponent,
            )
            &&& exponent == 0 ==> number.scaled() == fraction * pow2(1)
            &&& number.below_zero() <==> signed && !zero
            &&& number.above_zero() <==> !signed && !zero
        }),
{
    let number = number_of(signed, exponent, fraction);
    let sign: int = if signed {
        0x8000_0000_0000_0000
    } else {
        0
    };
    let rest = exponent * 0x10_0000_0000_0000 + fraction;
    assert(rest < 0x8000_0000_0000_0000);
    assert(number.bits == sign + rest);
    assert(number.exponent() == exponent);
    assert(number.fraction() == fraction);
    number.lemma_scaled_positive();
}

/// Whether the number has at most 53 significant bits.
pub open spec fn representable(value: nat) -> bool {
    exists|digits: nat, exponent: nat|
        digits < 0x20_0000_0000_0000 && value == #[trigger] (digits * pow2(exponent))
}

/// How far two numbers are apart.
pub open spec fn distance(left: nat, right: nat) -> nat {
    if left <= right {
        (right - left) as nat
    } else {
        (left - right) as nat
    }
}

proof fn lemma_representable(value: nat)
    requires
        representable(value),
    ensures
        nearest(value) == value,
{
    let (digits, exponent) = choose|digits: nat, exponent: nat|
        digits < 0x20_0000_0000_0000 && value == #[trigger] (digits * pow2(exponent));
    lemma_exact(digits, digits, 1);
    lemma_nearest_of_multiple(digits, exponent);
}

proof fn lemma_spacing_is_power(value: nat) -> (exponent: nat)
    ensures
        spacing(value) == pow2(exponent),
    decreases value,
{
    if value < 0x20_0000_0000_0000 {
        lemma2_to64();
        0
    } else {
        let half = lemma_spacing_is_power(value / 2);
        lemma_pow2_unfold(half + 1);
        half + 1
    }
}

/// Rounding gives a number of 53 significant bits, and none of these is nearer to what was rounded.
/// Of two that are equally near, it gives the even one: the one that is even as a multiple of the
/// distance between the two.
pub proof fn rounding_gives_the_nearest(value: nat, other: nat)
    requires
        representable(other),
    ensures
        representable(nearest(value)),
        distance(value, nearest(value)) <= distance(value, other),
        other != nearest(value) && distance(value, nearest(value)) == distance(value, other) ==> {
            let apart = distance(nearest(value), other);
            exists|half: nat| nearest(value) == #[trigger] (half * (2 * apart))
        },
{
    let unit = spacing(value);
    lemma_spacing(value);
    lemma_fundamental_div_mod(value as int, unit as int);
    let below = value / unit;
    let rest = value % unit;
    let low = below * unit;
    let high = (below + 1) * unit;
    assert(high == low + unit) by (nonlinear_arith)
        requires
            high == (below + 1) * unit,
            low == below * unit,
    ;
    assert(low == unit * below) by (nonlinear_arith)
        requires
            low == below * unit,
    ;
    lemma_representable(other);
    // No number of 53 significant bits lies between the two.
    assert(!(low < other < high)) by {
        if low < other < high {
            if value < 0x20_0000_0000_0000 {
                assert(unit == 1);
            } else {
                assert(below >= 0x10_0000_0000_0000) by (nonlinear_arith)
                    requires
                        value == unit * below + rest,
                        rest < unit,
                        0x10_0000_0000_0000 * unit <= value,
                        unit >= 1,
                ;
                assert(below < 0x20_0000_0000_0000) by (nonlinear_arith)
                    requires
                        value == unit * below + rest,
                        rest >= 0,
                        value < 0x20_0000_0000_0000 * unit,
                        unit >= 1,
                ;
                assert(low >= 0x10_0000_0000_0000 * unit) by (nonlinear_arith)
                    requires
                        below >= 0x10_0000_0000_0000,
                        low == below * unit,
                ;
                assert(high <= 0x20_0000_0000_0000 * unit) by (nonlinear_arith)
                    requires
                        below + 1 <= 0x20_0000_0000_0000,
                        high == (below + 1) * unit,
                ;
                if other <= value {
                    lemma_same_spacing(other, value);
                } else {
                    lemma_top_spacing(value, other);
                }
                lemma_fundamental_div_mod(other as int, unit as int);
                let digits = other / unit;
                assert((digits + 1) * unit == digits * unit + unit) by (nonlinear_arith);
                assert(digits * unit == unit * digits) by (nonlinear_arith);
                assert(other == digits * unit);
                assert(below < digits < below + 1) by (nonlinear_arith)
                    requires
                        below * unit < digits * unit,
                        digits * unit < (below + 1) * unit,
                        unit >= 1,
                ;
            }
        }
    }
    // What comes out has 53 significant bits.
    let exponent = lemma_spacing_is_power(value);
    lemma2_to64();
    assert(representable(nearest(value))) by {
        assert(below < 0x20_0000_0000_0000) by (nonlinear_arith)
            requires
                value == unit * below + rest,
                rest >= 0,
                value < 0x20_0000_0000_0000 * unit,
                unit >= 1,
        ;
        if nearest(value) == low {
            assert(nearest(value) == below * pow2(exponent));
        } else if below + 1 < 0x20_0000_0000_0000 {
            assert(nearest(value) == (below + 1) * pow2(exponent));
        } else {
            lemma_pow2_unfold(exponent + 1);
            let half: nat = 0x10_0000_0000_0000;
            let power = pow2(exponent);
            assert(high == half * (2 * power)) by (nonlinear_arith)
                requires
                    high == (below + 1) * unit,
                    below + 1 == 0x20_0000_0000_0000,
                    half == 0x10_0000_0000_0000,
                    unit == power,
            ;
            assert(nearest(value) == half * pow2(exponent + 1));
        }
    }
    if other != nearest(value) && distance(value, nearest(value)) == distance(value, other) {
        assert(2 * rest == unit);
        assert(distance(nearest(value), other) == unit);
        if nearest(value) == low {
            let half = below / 2;
            assert(low == half * (2 * unit)) by (nonlinear_arith)
                requires
                    low == below * unit,
                    below == 2 * half,
            ;
        } else {
            let half = (below + 1) as nat / 2;
            assert(high == half * (2 * unit)) by (nonlinear_arith)
                requires
                    high == (below + 1) * unit,
                    below + 1 == 2 * half,
            ;
        }
    }
}

/// The product is rounded up to the least whole number that covers it: the next smaller one does
/// not. It is given exactly where that number has 64 bits and is not below zero.
pub proof fn products_are_covered_by_the_least_number(count: nat, factor: Quantity, whole: nat)
    ensures
        ({
            let product = nearest(nearest(count) * factor.scaled());
            let one = pow2(1075);
            &&& !factor.finite() ==> product_rounded_up(count, factor) is None
            &&& factor.finite() && factor.signed() ==> {
                &&& product_rounded_up(count, factor) is Some <==> product < one
                &&& product < one ==> product_rounded_up(count, factor) == Some(0nat)
            }
            &&& factor.finite() && !factor.signed() ==> {
                &&& product_rounded_up(count, factor) is Some <==> product
                    <= 0xFFFF_FFFF_FFFF_FFFF * one
                &&& product_rounded_up(count, factor) == Some(whole) ==> {
                    &&& product <= whole * one
                    &&& whole > 0 ==> (whole - 1) * one < product
                    &&& whole < 0x1_0000_0000_0000_0000
                }
            }
        }),
{
    let product = nearest(nearest(count) * factor.scaled());
    let one = pow2(1075);
    lemma_pow2_pos(1075);
    let raised = (product + one - 1) as nat;
    lemma_fundamental_div_mod(raised as int, one as int);
    let least = raised / one;
    let rest = raised % one;
    assert(product <= least * one) by (nonlinear_arith)
        requires
            product + one - 1 == one * least + rest,
            rest < one,
    ;
    assert(least > 0 ==> (least - 1) * one < product) by (nonlinear_arith)
        requires
            product + one - 1 == one * least + rest,
            rest >= 0,
            one >= 1,
    ;
    if least < 0x1_0000_0000_0000_0000 {
        assert(least * one <= 0xFFFF_FFFF_FFFF_FFFF * one) by (nonlinear_arith)
            requires
                least <= 0xFFFF_FFFF_FFFF_FFFF,
        ;
    } else {
        assert((least - 1) * one >= 0xFFFF_FFFF_FFFF_FFFF * one) by (nonlinear_arith)
            requires
                least - 1 >= 0xFFFF_FFFF_FFFF_FFFF,
        ;
    }
}

} // verus!
