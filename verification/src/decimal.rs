use vstd::prelude::*;
use vstd::arithmetic::div_mod::lemma_fundamental_div_mod;
use vstd::arithmetic::div_mod::lemma_fundamental_div_mod_converse;
use vstd::arithmetic::div_mod::lemma_div_multiples_vanish;
use vstd::arithmetic::div_mod::lemma_div_denominator;

verus! {

/// Raw steps per unit: a `Decimal` counts billionths.
pub const SCALE: i128 = 1_000_000_000;

/// A signed decimal number with nine fractional digits. The number it stands for
/// is `raw / SCALE`; every operation rounds towards minus infinity and reports
/// a result that cannot be represented as `None`.
#[derive(Clone, Copy, Debug, PartialEq, Eq, Structural)]
pub struct Decimal {
    pub raw: i128,
}

/// Whether `v` can be held in the raw field of a `Decimal`.
pub open spec fn fits(v: int) -> bool {
    i128::MIN <= v <= i128::MAX
}

/// The decimal with raw value `v`, where that can be held.
pub open spec fn decimal_of(v: int) -> Option<Decimal> {
    if fits(v) {
        Some(Decimal { raw: v as i128 })
    } else {
        None
    }
}

/// Ten to the power `n`.
pub open spec fn pow10(n: nat) -> nat
    decreases n,
{
    if n == 0 {
        1
    } else {
        10 * pow10((n - 1) as nat)
    }
}

/// `pow10` never vanishes and grows with its argument.
pub proof fn lemma_pow10_grows(a: nat, b: nat)
    requires
        a <= b,
    ensures
        1 <= pow10(a) <= pow10(b),
    decreases b,
{
    if b == 0 {
    } else if a == b {
        lemma_pow10_grows(0, (b - 1) as nat);
    } else {
        lemma_pow10_grows(a, (b - 1) as nat);
    }
}

/// Ten to the power `n`, or `None` where that exceeds `u128`, which is the case
/// from `n = 39` on.
pub fn checked_pow10(n: u8) -> (p: Option<u128>)
    ensures
        p == (if n <= 38 { Some(pow10(n as nat) as u128) } else { None }),
        n <= 38 ==> pow10(n as nat) <= 100_000_000_000_000_000_000_000_000_000_000_000_000,
{
    if n > 38 {
        return None;
    }
    proof {
        lemma_pow10_38();
        lemma_pow10_grows(n as nat, 38);
    }
    let mut p: u128 = 1;
    let mut i: u8 = 0;
    while i < n
        invariant
            i <= n <= 38,
            p == pow10(i as nat),
            pow10(38) == 100_000_000_000_000_000_000_000_000_000_000_000_000,
        decreases n - i,
    {
        proof {
            lemma_pow10_grows((i + 1) as nat, 38);
        }
        p = p * 10;
        i = i + 1;
    }
    Some(p)
}

/// Powers of ten multiply as their exponents add.
pub proof fn lemma_pow10_adds(a: nat, b: nat)
    ensures
        pow10(a + b) == pow10(a) * pow10(b),
    decreases a,
{
    if a == 0 {
        assert(pow10(0) == 1);
        assert(a + b == b);
        assert(1 * pow10(b) == pow10(b));
    } else {
        let before = (a - 1) as nat;
        lemma_pow10_adds(before, b);
        assert((a + b - 1) as nat == before + b);
        assert(pow10(a + b) == 10 * pow10(before + b));
        assert(pow10(a) == 10 * pow10(before));
        let x = pow10(before) as int;
        let y = pow10(b) as int;
        assert(10 * (x * y) == (10 * x) * y) by (nonlinear_arith);
    }
}

/// The value of `pow10(38)`, the largest power of ten below `2^128`.
pub proof fn lemma_pow10_38()
    ensures
        pow10(38) == 100_000_000_000_000_000_000_000_000_000_000_000_000,
{
    reveal_with_fuel(pow10, 39);
}

/// Ten times `rest`, divided by `divisor` with remainder, for a `rest` below
/// the divisor: the quotient is a digit. No step leaves 128 bits, however
/// large the divisor.
fn next_digit(rest: u128, divisor: u128) -> (r: (u8, u128))
    requires
        rest < divisor,
    ensures
        10 * rest == r.0 * divisor + r.1,
        r.1 < divisor,
        r.0 <= 9,
{
    let mut digit: u8 = 0;
    let mut partial: u128 = 0;
    let mut added: u8 = 0;
    while added < 10
        invariant
            added <= 10,
            rest < divisor,
            added * rest == digit * divisor + partial,
            partial < divisor,
            digit <= added,
        decreases 10 - added,
    {
        let ghost before = (digit, partial);
        if partial >= divisor - rest {
            partial = partial - (divisor - rest);
            digit = digit + 1;
        } else {
            partial = partial + rest;
        }
        assert((added + 1) * rest == digit * divisor + partial) by (nonlinear_arith)
            requires
                added * rest == before.0 * divisor + before.1,
                (digit == before.0 + 1 && partial == before.1 - (divisor - rest)) || (digit
                    == before.0 && partial == before.1 + rest),
        ;
        added = added + 1;
    }
    proof {
        if digit == 10 {
            assert(10 * rest >= 10 * divisor) by (nonlinear_arith)
                requires
                    10 * rest == 10 * divisor + partial,
                    partial >= 0,
            ;
        }
    }
    (digit, partial)
}

/// The billionths of `rest / divisor`, rounded down, for a `rest` below the
/// divisor, and what the division leaves over.
fn billionths_of(rest: u128, divisor: u128) -> (r: (u128, u128))
    requires
        rest < divisor,
    ensures
        r.0 == (rest * SCALE) / (divisor as int),
        r.1 == (rest * SCALE) % (divisor as int),
        r.0 < SCALE,
{
    let mut found: u128 = 0;
    let mut left: u128 = rest;
    let mut place: u8 = 0;
    proof {
        lemma_pow10_9();
        assert(pow10(0) == 1);
    }
    while place < 9
        invariant
            place <= 9,
            left < divisor,
            rest * pow10(place as nat) == found * divisor + left,
            found < pow10(place as nat),
            pow10(9) == SCALE,
        decreases 9 - place,
    {
        let (digit, next) = next_digit(left, divisor);
        proof {
            lemma_pow10_grows((place + 1) as nat, 9);
            assert(pow10((place + 1) as nat) == 10 * pow10(place as nat));
            let scale = pow10(place as nat) as int;
            assert(rest * (10 * scale) == (found * 10 + digit) * divisor + next)
                by (nonlinear_arith)
                requires
                    rest * scale == found * divisor + left,
                    10 * left == digit * divisor + next,
            ;
        }
        found = found * 10 + digit as u128;
        left = next;
        place = place + 1;
    }
    proof {
        lemma_fundamental_div_mod_converse(
            rest * SCALE,
            divisor as int,
            found as int,
            left as int,
        );
    }
    (found, left)
}

/// `SCALE` times `m`, divided by a positive `d`: the quotient rounded down,
/// and whether nothing was cut off. `None` where the quotient leaves 128 bits.
fn scaled_over(m: u128, d: u128) -> (r: Option<(u128, bool)>)
    requires
        d > 0,
    ensures
        match r {
            Some((q, exact)) => q == (m * SCALE) / (d as int) && exact == ((m * SCALE) % (d as int)
                == 0),
            None => (m * SCALE) / (d as int) > u128::MAX,
        },
{
    let wholes: u128 = m / d;
    let rest: u128 = m % d;
    let (billionths, left) = billionths_of(rest, d);
    proof {
        lemma_fundamental_div_mod(m as int, d as int);
        lemma_fundamental_div_mod(rest * SCALE, d as int);
        assert(m * SCALE == d * (wholes * SCALE + billionths) + left) by (nonlinear_arith)
            requires
                m == d * wholes + rest,
                rest * SCALE == d * billionths + left,
        ;
        lemma_fundamental_div_mod_converse(
            m * SCALE,
            d as int,
            wholes * SCALE + billionths,
            left as int,
        );
    }
    match wholes.checked_mul(1_000_000_000u128) {
        Some(scaled) => match scaled.checked_add(billionths) {
            Some(total) => Some((total, left == 0)),
            None => None,
        },
        None => None,
    }
}

/// The product of `m` and `n`, divided by `SCALE`: the quotient rounded down,
/// and whether nothing was cut off. `None` where the quotient leaves 128 bits.
fn product_over_scale(m: u128, n: u128) -> (r: Option<(u128, bool)>)
    ensures
        match r {
            Some((q, exact)) => q == (m * n) / (SCALE as int) && exact == ((m * n) % (SCALE as int)
                == 0),
            None => (m * n) / (SCALE as int) > u128::MAX,
        },
{
    let scale: u128 = 1_000_000_000;
    let m1: u128 = m / scale;
    let m0: u128 = m % scale;
    let n1: u128 = n / scale;
    let n0: u128 = n % scale;
    let ghost high = m1 * n1 * scale;
    let ghost middle = m1 * n0 + m0 * n1;
    let ghost low = m0 * n0;
    proof {
        lemma_fundamental_div_mod(m as int, scale as int);
        lemma_fundamental_div_mod(n as int, scale as int);
        assert(m * n == scale * (m1 * n1 * scale + (m1 * n0 + m0 * n1)) + m0 * n0)
            by (nonlinear_arith)
            requires
                m == scale * m1 + m0,
                n == scale * n1 + n0,
        ;
        vstd::arithmetic::div_mod::lemma_hoist_over_denominator(
            low,
            high + middle,
            scale as nat,
        );
        vstd::arithmetic::div_mod::lemma_mod_multiples_vanish(high + middle, low, scale as int);
        assert(low + (high + middle) * scale == m * n) by (nonlinear_arith)
            requires
                m * n == scale * (high + middle) + low,
        ;
        assert(0 <= low < 1_000_000_000 * 1_000_000_000) by (nonlinear_arith)
            requires
                low == m0 * n0,
                0 <= m0 < 1_000_000_000,
                0 <= n0 < 1_000_000_000,
        ;
        vstd::arithmetic::div_mod::lemma_div_pos_is_pos(low, scale as int);
        assert(m1 * n0 <= m1 * scale && m0 * n1 <= scale * n1) by (nonlinear_arith)
            requires
                0 <= n0 < scale,
                0 <= m0 < scale,
                m1 >= 0,
                n1 >= 0,
        ;
        assert(m1 * n1 * scale >= m1 * n1 >= 0) by (nonlinear_arith)
            requires
                m1 >= 0,
                n1 >= 0,
                scale >= 1,
        ;
        assert(m1 * n0 >= 0 && m0 * n1 >= 0) by (nonlinear_arith)
            requires
                m1 >= 0,
                n1 >= 0,
                m0 >= 0,
                n0 >= 0,
        ;
    }
    let squares = m1.checked_mul(n1)?;
    let upper = squares.checked_mul(scale)?;
    let first: u128 = m1 * n0;
    let second: u128 = m0 * n1;
    let lower: u128 = m0 * n0;
    let carried: u128 = lower / scale;
    let sum = upper.checked_add(first)?;
    let sum = sum.checked_add(second)?;
    let sum = sum.checked_add(carried)?;
    Some((sum, lower % scale == 0))
}

/// The size of a number without its sign.
fn magnitude(a: i128) -> (m: u128)
    ensures
        m == (if a >= 0 {
            a as int
        } else {
            -(a as int)
        }),
{
    if a >= 0 {
        a as u128
    } else if a == i128::MIN {
        170_141_183_460_469_231_731_687_303_715_884_105_728
    } else {
        (-a) as u128
    }
}

/// Dividing the negative of a number rounds away from zero where something
/// is cut off.
pub proof fn lemma_floor_of_negated(x: int, d: int)
    requires
        x >= 0,
        d > 0,
    ensures
        (-x) / d == (if x % d == 0 {
            -(x / d)
        } else {
            -(x / d) - 1
        }),
{
    lemma_fundamental_div_mod(x, d);
    let q = x / d;
    let r = x % d;
    if r == 0 {
        assert(-x == d * (-q) + 0) by (nonlinear_arith)
            requires
                x == d * q + r,
                r == 0,
        ;
        lemma_fundamental_div_mod_converse(-x, d, -q, 0);
    } else {
        assert(-x == d * (-q - 1) + (d - r)) by (nonlinear_arith)
            requires
                x == d * q + r,
        ;
        lemma_fundamental_div_mod_converse(-x, d, -q - 1, d - r);
    }
}

/// The decimal whose raw value is `whole` with the given sign, rounded down
/// where something was cut off.
fn signed(whole: u128, exact: bool, negative: bool) -> (r: Option<Decimal>)
    ensures
        r == decimal_of(
            if !negative {
                whole as int
            } else if exact {
                -(whole as int)
            } else {
                -(whole as int) - 1
            },
        ),
{
    if !negative {
        if whole <= i128::MAX as u128 {
            Some(Decimal { raw: whole as i128 })
        } else {
            None
        }
    } else {
        let least: u128 = 170_141_183_460_469_231_731_687_303_715_884_105_728;
        let size: u128 = if exact {
            whole
        } else if whole < least {
            whole + 1
        } else {
            return None;
        };
        if size < least {
            Some(Decimal { raw: -(size as i128) })
        } else if size == least {
            Some(Decimal { raw: i128::MIN })
        } else {
            None
        }
    }
}

impl Decimal {
    /// Zero.
    pub fn zero() -> (d: Decimal)
        ensures
            d.raw == 0,
    {
        Decimal { raw: 0 }
    }

    /// One.
    pub fn one() -> (d: Decimal)
        ensures
            d.raw == SCALE,
    {
        Decimal { raw: SCALE }
    }

    /// The decimal that stands for `raw / SCALE`.
    pub fn from_raw(raw: i128) -> (d: Decimal)
        ensures
            d.raw == raw,
    {
        Decimal { raw }
    }

    /// The sum, where it can be represented.
    pub open spec fn sum(self, rhs: Decimal) -> Option<Decimal> {
        decimal_of(self.raw + rhs.raw)
    }

    /// The difference, where it can be represented.
    pub open spec fn difference(self, rhs: Decimal) -> Option<Decimal> {
        decimal_of(self.raw - rhs.raw)
    }

    /// The product rounded down to a billionth, where it can be represented.
    pub open spec fn product(self, rhs: Decimal) -> Option<Decimal> {
        decimal_of((self.raw * rhs.raw) / (SCALE as int))
    }

    /// The quotient rounded down to a billionth, where it can be represented.
    /// Only a division by zero has no quotient at all.
    pub open spec fn quotient(self, rhs: Decimal) -> Option<Decimal> {
        if rhs.raw > 0 {
            decimal_of((self.raw * SCALE) / (rhs.raw as int))
        } else if rhs.raw < 0 {
            decimal_of((-(self.raw * SCALE)) / (-(rhs.raw as int)))
        } else {
            None
        }
    }

    /// The product with a whole number, where it can be represented.
    pub open spec fn scaled_by(self, factor: u64) -> Option<Decimal> {
        decimal_of(self.raw * factor)
    }

    /// The amount that `raw` stands for where the last `decimals` digits of
    /// `raw` are fractional: `raw / 10^decimals`, rounded down to a billionth.
    pub open spec fn of_units(raw: u128, decimals: u8) -> Option<Decimal> {
        decimal_of((raw * SCALE) / (pow10(decimals as nat) as int))
    }

    /// The ratio of two whole numbers, rounded down to a billionth. It is
    /// defined for a positive denominator.
    pub open spec fn ratio_of(numerator: u128, denominator: u128) -> Option<Decimal> {
        if denominator > 0 {
            decimal_of((numerator * SCALE) / (denominator as int))
        } else {
            None
        }
    }

    /// The amount that `raw` stands for where its last `decimals` digits are
    /// fractional.
    pub fn from_units(raw: u128, decimals: u8) -> (r: Option<Decimal>)
        ensures
            r == Decimal::of_units(raw, decimals),
    {
        if decimals >= 9 {
            let shift: u8 = decimals - 9;
            proof {
                lemma_pow10_adds(9, shift as nat);
                lemma_pow10_9();
                lemma_pow10_grows(0, shift as nat);
                lemma_div_denominator_cancel(raw as int, SCALE as int, pow10(shift as nat) as int);
            }
            let whole: u128 = match checked_pow10(shift) {
                Some(divisor) => raw / divisor,
                None => {
                    proof {
                        lemma_pow10_38();
                        lemma_pow10_grows(39, shift as nat);
                        lemma_pow10_adds(1, 38);
                        reveal_with_fuel(pow10, 2);
                        vstd::arithmetic::div_mod::lemma_basic_div(
                            raw as int,
                            pow10(shift as nat) as int,
                        );
                    }
                    0
                },
            };
            if whole <= i128::MAX as u128 {
                Some(Decimal { raw: whole as i128 })
            } else {
                None
            }
        } else {
            let shift: u8 = 9 - decimals;
            proof {
                lemma_pow10_adds(decimals as nat, shift as nat);
                lemma_pow10_9();
                lemma_pow10_grows(0, decimals as nat);
                lemma_pow10_grows(shift as nat, 9);
                let low = pow10(decimals as nat) as int;
                let high = pow10(shift as nat) as int;
                assert(raw * SCALE == low * (raw * high)) by (nonlinear_arith)
                    requires
                        SCALE == low * high,
                ;
                lemma_div_multiples_vanish(raw * high, low);
            }
            let factor: u128 = match checked_pow10(shift) {
                Some(factor) => factor,
                None => 1,
            };
            match raw.checked_mul(factor) {
                Some(whole) => if whole <= i128::MAX as u128 {
                    Some(Decimal { raw: whole as i128 })
                } else {
                    None
                },
                None => None,
            }
        }
    }

    /// The ratio of two whole numbers, rounded down to a billionth.
    pub fn ratio(numerator: u128, denominator: u128) -> (r: Option<Decimal>)
        ensures
            r == Decimal::ratio_of(numerator, denominator),
    {
        if denominator == 0 {
            return None;
        }
        let wholes: u128 = numerator / denominator;
        let rest: u128 = numerator % denominator;
        let (billionths, _) = billionths_of(rest, denominator);
        proof {
            lemma_fundamental_div_mod(numerator as int, denominator as int);
            assert(numerator * SCALE == rest * SCALE + (wholes * SCALE) * denominator)
                by (nonlinear_arith)
                requires
                    numerator == denominator * wholes + rest,
            ;
            vstd::arithmetic::div_mod::lemma_hoist_over_denominator(
                rest * SCALE,
                wholes * SCALE,
                denominator as nat,
            );
        }
        match wholes.checked_mul(1_000_000_000u128) {
            Some(scaled) => match scaled.checked_add(billionths) {
                Some(total) => if total <= i128::MAX as u128 {
                    Some(Decimal { raw: total as i128 })
                } else {
                    None
                },
                None => None,
            },
            None => None,
        }
    }

    /// The sum, or `None` where it cannot be represented.
    pub fn checked_add(self, rhs: Decimal) -> (r: Option<Decimal>)
        ensures
            r == self.sum(rhs),
    {
        match self.raw.checked_add(rhs.raw) {
            Some(raw) => Some(Decimal { raw }),
            None => None,
        }
    }

    /// The difference, or `None` where it cannot be represented.
    pub fn checked_sub(self, rhs: Decimal) -> (r: Option<Decimal>)
        ensures
            r == self.difference(rhs),
    {
        match self.raw.checked_sub(rhs.raw) {
            Some(raw) => Some(Decimal { raw }),
            None => None,
        }
    }

    /// The product rounded down to a billionth, or `None` where it cannot be
    /// represented.
    pub fn checked_mul(self, rhs: Decimal) -> (r: Option<Decimal>)
        ensures
            r == self.product(rhs),
    {
        let negative = (self.raw < 0) != (rhs.raw < 0);
        let m = magnitude(self.raw);
        let n = magnitude(rhs.raw);
        proof {
            assert(self.raw * rhs.raw == (if negative {
                -(m * n)
            } else {
                m * n
            })) by (nonlinear_arith)
                requires
                    m == (if self.raw >= 0 {
                        self.raw as int
                    } else {
                        -(self.raw as int)
                    }),
                    n == (if rhs.raw >= 0 {
                        rhs.raw as int
                    } else {
                        -(rhs.raw as int)
                    }),
                    negative == ((self.raw < 0) != (rhs.raw < 0)),
            ;
            assert(m * n >= 0) by (nonlinear_arith)
                requires
                    m >= 0,
                    n >= 0,
            ;
            lemma_floor_of_negated(m * n, SCALE as int);
        }
        match product_over_scale(m, n) {
            Some((whole, exact)) => signed(whole, exact, negative),
            None => None,
        }
    }

    /// The quotient rounded down to a billionth, or `None` where it cannot be
    /// represented or the divisor is zero.
    pub fn checked_div(self, rhs: Decimal) -> (r: Option<Decimal>)
        ensures
            r == self.quotient(rhs),
    {
        if rhs.raw == 0 {
            return None;
        }
        let negative = (self.raw < 0) != (rhs.raw < 0);
        let m = magnitude(self.raw);
        let d = magnitude(rhs.raw);
        proof {
            let above = if rhs.raw > 0 {
                self.raw * SCALE
            } else {
                -(self.raw * SCALE)
            };
            assert(above == (if negative {
                -(m * SCALE)
            } else {
                m * SCALE
            })) by (nonlinear_arith)
                requires
                    m == (if self.raw >= 0 {
                        self.raw as int
                    } else {
                        -(self.raw as int)
                    }),
                    negative == ((self.raw < 0) != (rhs.raw < 0)),
                    rhs.raw != 0,
                    above == (if rhs.raw > 0 {
                        self.raw * SCALE
                    } else {
                        -(self.raw * SCALE)
                    }),
            ;
            assert(m * SCALE >= 0) by (nonlinear_arith)
                requires
                    m >= 0,
            ;
            lemma_floor_of_negated(m * SCALE, d as int);
        }
        match scaled_over(m, d) {
            Some((whole, exact)) => signed(whole, exact, negative),
            None => None,
        }
    }

    /// The product with a whole number, or `None` where it cannot be
    /// represented.
    pub fn checked_scale(self, factor: u64) -> (r: Option<Decimal>)
        ensures
            r == self.scaled_by(factor),
    {
        match self.raw.checked_mul(factor as i128) {
            Some(raw) => Some(Decimal { raw }),
            None => None,
        }
    }
}

/// The value of `pow10(9)`, which is `SCALE`.
pub proof fn lemma_pow10_9()
    ensures
        pow10(9) == SCALE,
{
    reveal_with_fuel(pow10, 10);
}

/// A factor common to dividend and divisor can be left out.
pub proof fn lemma_div_denominator_cancel(a: int, c: int, d: int)
    requires
        a >= 0,
        c > 0,
        d > 0,
    ensures
        (a * c) / (c * d) == a / d,
{
    assert(a * c >= 0) by (nonlinear_arith)
        requires
            a >= 0,
            c > 0,
    ;
    lemma_div_denominator(a * c, c, d);
    lemma_div_multiples_vanish(a, c);
    assert(a * c == c * a) by (nonlinear_arith);
}

/// An amount with ten or more fractional digits can always be represented.
pub proof fn lemma_of_units_defined(raw: u128, decimals: u8)
    requires
        decimals >= 10,
    ensures
        Decimal::of_units(raw, decimals) is Some,
        0 <= (Decimal::of_units(raw, decimals)->0).raw <= raw / 10,
{
    let shift = (decimals - 9) as nat;
    lemma_pow10_adds(9, shift);
    lemma_pow10_9();
    lemma_pow10_grows(1, shift);
    reveal_with_fuel(pow10, 2);
    lemma_div_denominator_cancel(raw as int, SCALE as int, pow10(shift) as int);
    vstd::arithmetic::div_mod::lemma_div_is_ordered_by_denominator(
        raw as int,
        10,
        pow10(shift) as int,
    );
    vstd::arithmetic::div_mod::lemma_div_pos_is_pos(raw as int, pow10(shift) as int);
}

/// An amount read from units is not negative, and neither is a ratio of
/// whole numbers.
pub proof fn lemma_amounts_not_negative(raw: u128, decimals: u8, numerator: u128, denominator: u128)
    ensures
        Decimal::of_units(raw, decimals) matches Some(amount) ==> amount.raw >= 0,
        Decimal::ratio_of(numerator, denominator) matches Some(ratio) ==> ratio.raw >= 0,
{
    lemma_pow10_grows(0, decimals as nat);
    assert(raw * SCALE >= 0) by (nonlinear_arith)
        requires
            raw >= 0,
    ;
    vstd::arithmetic::div_mod::lemma_div_pos_is_pos(raw * SCALE, pow10(decimals as nat) as int);
    if denominator > 0 {
        assert(numerator * SCALE >= 0) by (nonlinear_arith)
            requires
                numerator >= 0,
        ;
        vstd::arithmetic::div_mod::lemma_div_pos_is_pos(numerator * SCALE, denominator as int);
    }
}

/// The product of two numbers that are not negative is not negative.
pub proof fn lemma_product_not_negative(a: Decimal, b: Decimal)
    requires
        a.raw >= 0,
        b.raw >= 0,
    ensures
        a.product(b) matches Some(product) ==> product.raw >= 0,
{
    assert(a.raw * b.raw >= 0) by (nonlinear_arith)
        requires
            a.raw >= 0,
            b.raw >= 0,
    ;
    vstd::arithmetic::div_mod::lemma_div_pos_is_pos(a.raw * b.raw, SCALE as int);
}

/// The sum of two results: undefined where either is.
pub open spec fn opt_sum(a: Option<Decimal>, b: Option<Decimal>) -> Option<Decimal> {
    match (a, b) {
        (Some(x), Some(y)) => x.sum(y),
        _ => None,
    }
}

/// The difference of two results: undefined where either is.
pub open spec fn opt_difference(a: Option<Decimal>, b: Option<Decimal>) -> Option<Decimal> {
    match (a, b) {
        (Some(x), Some(y)) => x.difference(y),
        _ => None,
    }
}

/// The product of two results: undefined where either is.
pub open spec fn opt_product(a: Option<Decimal>, b: Option<Decimal>) -> Option<Decimal> {
    match (a, b) {
        (Some(x), Some(y)) => x.product(y),
        _ => None,
    }
}

/// The quotient of two results: undefined where either is.
pub open spec fn opt_quotient(a: Option<Decimal>, b: Option<Decimal>) -> Option<Decimal> {
    match (a, b) {
        (Some(x), Some(y)) => x.quotient(y),
        _ => None,
    }
}

/// A result times a whole number: undefined where the result is.
pub open spec fn opt_scaled(a: Option<Decimal>, factor: u64) -> Option<Decimal> {
    match a {
        Some(x) => x.scaled_by(factor),
        None => None,
    }
}

/// The decimal one.
pub open spec fn unit() -> Decimal {
    Decimal { raw: SCALE }
}

} // verus!
