use vstd::prelude::*;
use vstd::arithmetic::div_mod::lemma_fundamental_div_mod;
use crate::decimal::{
    opt_difference, opt_quotient, unit, Decimal, SCALE,
};

verus! {

/// A yearly growth rate, where 10% is 0.1, with the inflation it is to be
/// measured against, if any.
pub struct Growth {
    yearly_growth: Decimal,
    inflation: Option<Decimal>,
}

/// The growth that is left of `nominal` once `inflation` is taken out:
/// `(1 + nominal) / (1 + inflation) - 1`, and `nominal` itself where no
/// inflation is given. It is undefined where `1 + inflation` is zero or a
/// step leaves the range of `Decimal`.
pub open spec fn real_growth(nominal: Decimal, inflation: Option<Decimal>) -> Option<Decimal> {
    match inflation {
        None => Some(nominal),
        Some(rate) => opt_difference(
            opt_quotient(unit().sum(nominal), unit().sum(rate)),
            Some(unit()),
        ),
    }
}

impl Growth {
    /// The nominal yearly rate.
    pub closed spec fn nominal(&self) -> Decimal {
        self.yearly_growth
    }

    /// The yearly inflation, if one was given.
    pub closed spec fn inflation(&self) -> Option<Decimal> {
        self.inflation
    }

    /// A growth that is not measured against inflation.
    pub fn new(yearly_growth: Decimal) -> (g: Growth)
        ensures
            g.nominal() == yearly_growth,
            g.inflation() is None,
    {
        Growth { yearly_growth, inflation: None }
    }

    /// A growth measured against the given inflation.
    pub fn new_with_inflation(yearly_growth: Decimal, inflation: Decimal) -> (g: Growth)
        ensures
            g.nominal() == yearly_growth,
            g.inflation() == Some(inflation),
    {
        Growth { yearly_growth, inflation: Some(inflation) }
    }

    /// The nominal yearly rate.
    pub fn get_nominal_growth(&self) -> (rate: Decimal)
        ensures
            rate == self.nominal(),
    {
        self.yearly_growth
    }

    /// The yearly rate after inflation.
    pub fn get_real_growth(self) -> (rate: Option<Decimal>)
        ensures
            rate == real_growth(self.nominal(), self.inflation()),
    {
        match self.inflation {
            None => Some(self.yearly_growth),
            Some(inflation) => {
                let grown = Decimal::one().checked_add(self.yearly_growth)?;
                let priced = Decimal::one().checked_add(inflation)?;
                let ratio = grown.checked_div(priced)?;
                ratio.checked_sub(Decimal::one())
            },
        }
    }
}

/// The real growth is the nominal growth deflated by the inflation, rounded
/// down to a billionth. With all three taken as numbers and `1 + inflation`
/// positive,
/// `(1 + real) * (1 + inflation) <= 1 + nominal < (1 + real + 1e-9) * (1 + inflation)`;
/// with `1 + inflation` negative both comparisons turn round, as they do for
/// every product with a negative number.
pub proof fn lemma_real_growth_deflates(nominal: Decimal, inflation: Decimal)
    requires
        real_growth(nominal, Some(inflation)) is Some,
    ensures
        ({
            let after = real_growth(nominal, Some(inflation))->0;
            let above = (SCALE + nominal.raw) * SCALE;
            let below = SCALE + inflation.raw;
            &&& below != 0
            &&& below > 0 ==> (SCALE + after.raw) * below <= above < (SCALE + after.raw + 1) * below
            &&& below < 0 ==> (SCALE + after.raw) * below >= above > (SCALE + after.raw + 1) * below
        }),
{
    let n = SCALE + nominal.raw;
    let d = SCALE + inflation.raw;
    if d > 0 {
        lemma_fundamental_div_mod(n * SCALE, d);
        let q = (n * SCALE) / d;
        let r = (n * SCALE) % d;
        assert(q * d <= n * SCALE < (q + 1) * d) by (nonlinear_arith)
            requires
                n * SCALE == d * q + r,
                0 <= r < d,
        ;
    } else {
        lemma_fundamental_div_mod(-(n * SCALE), -d);
        let q = (-(n * SCALE)) / (-d);
        let r = (-(n * SCALE)) % (-d);
        assert(q * d >= n * SCALE > (q + 1) * d) by (nonlinear_arith)
            requires
                -(n * SCALE) == (-d) * q + r,
                0 <= r < -d,
        ;
    }
}

/// A growth that only keeps up with inflation is no real growth: where the
/// nominal rate equals the inflation the real growth is zero, whatever the
/// rate, but for an inflation of minus one, which leaves nothing to divide by.
pub proof fn lemma_real_growth_at_inflation_is_zero(rate: Decimal)
    requires
        unit().sum(rate) is Some,
        SCALE + rate.raw != 0,
    ensures
        real_growth(rate, Some(rate)) == Some(Decimal { raw: 0 }),
{
    let n = SCALE + rate.raw;
    if n > 0 {
        vstd::arithmetic::div_mod::lemma_div_multiples_vanish(SCALE as int, n);
    } else {
        vstd::arithmetic::div_mod::lemma_div_multiples_vanish(SCALE as int, -n);
        assert(-(n * SCALE) == (-n) * SCALE) by (nonlinear_arith);
    }
}

/// Without inflation the real growth is the nominal growth.
pub proof fn lemma_real_growth_without_inflation(nominal: Decimal)
    ensures
        real_growth(nominal, None) == Some(nominal),
{
}

} // verus!
