use vstd::prelude::*;
use crate::asset::{Asset, AssetModel};
use crate::blockchain::defiasset::{models_of, DefiAsset};
use crate::blockchain::{holds_position, underlying_from_capture};
use crate::decimal::{
    lemma_amounts_not_negative, lemma_product_not_negative, opt_difference, opt_product, opt_quotient, opt_sum, Decimal, SCALE,
};
use crate::error::{out_of_range_failure, ApiError, ErrorKind, Failure};
use vstd::string::StringExecFns;
use crate::gather::{gathered, lemma_gathered_failure_stays, lemma_gathered_step};
use crate::text::{capture_named, named_capture};

verus! {

/// The share of the borrowers' interest that reaches the lenders: 0.81.
pub const LENDING_FEE_SHARE: i128 = 810_000_000;

/// The expression that an Alpaca interest-bearing token's symbol must hold:
/// `ib` and three or four capital letters, which name the underlying token.
pub open spec fn ibtoken_pattern() -> Seq<char> {
    "ib(?P<underlaying>[A-Z]{3,4})"@
}

/// The name of the group that holds the underlying token.
pub open spec fn underlying_group() -> Seq<char> {
    "underlaying"@
}

/// The token that underlies an Alpaca interest-bearing token.
pub fn get_underlaying_name(ibtoken: &String) -> (r: Result<String, ApiError>)
    ensures
        match named_capture(ibtoken_pattern(), underlying_group(), ibtoken@) {
            Some(name) => r matches Ok(found) && found@ == name,
            None => r matches Err(e) && e.kind() == ErrorKind::Parse && e.message()
                == "No valid Alpaca ibToken: "@ + ibtoken@,
        },
{
    let capture = capture_named("ib(?P<underlaying>[A-Z]{3,4})", "underlaying", ibtoken.as_str());
    underlying_from_capture(capture, "No valid Alpaca ibToken: ", ibtoken.as_str())
}

/// The interest that borrowers of a vault pay, as a curve of three straight
/// segments over the vault's usage: up to each ceiling the rate rises to that
/// ceiling's maximum.
pub struct InterestModel {
    pub ceil_slope_1: Decimal,
    pub ceil_slope_2: Decimal,
    pub ceil_slope_3: Decimal,
    pub max_interest_slope_1: Decimal,
    pub max_interest_slope_2: Decimal,
    pub max_interest_slope_3: Decimal,
}

/// The rate at `usage` on the straight line that rises from `low` at the usage
/// `from` to `high` at the usage `to`:
/// `(usage - from) / (to - from) * (high - low) + low`.
pub open spec fn segment_rate(
    usage: Decimal,
    from: Decimal,
    to: Decimal,
    low: Decimal,
    high: Decimal,
) -> Option<Decimal> {
    opt_sum(
        opt_product(
            opt_quotient(usage.difference(from), to.difference(from)),
            high.difference(low),
        ),
        Some(low),
    )
}

/// The borrowers' rate at a usage. It is undefined for a usage above one or
/// above the third ceiling, and where a step leaves the range of `Decimal`.
pub open spec fn borrow_rate(model: InterestModel, usage: Decimal) -> Option<Decimal> {
    let zero = Decimal { raw: 0 };
    if usage.raw > SCALE {
        None
    } else if usage.raw < model.ceil_slope_1.raw {
        segment_rate(usage, zero, model.ceil_slope_1, zero, model.max_interest_slope_1)
    } else if usage.raw < model.ceil_slope_2.raw {
        segment_rate(
            usage,
            model.ceil_slope_1,
            model.ceil_slope_2,
            model.max_interest_slope_1,
            model.max_interest_slope_2,
        )
    } else if usage.raw <= model.ceil_slope_3.raw {
        segment_rate(
            usage,
            model.ceil_slope_2,
            model.ceil_slope_3,
            model.max_interest_slope_2,
            model.max_interest_slope_3,
        )
    } else {
        None
    }
}

/// A segment begins at its lower rate and ends at its upper one: at a
/// ceiling the rate is that ceiling's maximum.
pub proof fn lemma_segment_rate_at_its_ends(from: Decimal, to: Decimal, low: Decimal, high: Decimal)
    requires
        from.raw < to.raw,
        to.difference(from) is Some,
        high.difference(low) is Some,
    ensures
        segment_rate(from, from, to, low, high) == Some(low),
        segment_rate(to, from, to, low, high) == Some(high),
{
    let width = to.raw - from.raw;
    let rise = high.raw - low.raw;
    assert((0 * SCALE) / width == 0) by (nonlinear_arith)
        requires
            width > 0,
    ;
    assert((0 * rise) / (SCALE as int) == 0) by (nonlinear_arith);
    assert((width * SCALE) / width == SCALE) by {
        vstd::arithmetic::div_mod::lemma_div_multiples_vanish(SCALE as int, width);
    }
    assert((SCALE * rise) / (SCALE as int) == rise) by {
        vstd::arithmetic::div_mod::lemma_div_multiples_vanish(rise, SCALE as int);
    }
}

/// Why a usage has no borrowers' rate: it is above one, or above the third
/// ceiling, or a step left the range of `Decimal`.
pub open spec fn borrow_rate_failure(model: InterestModel, usage: Decimal) -> Failure {
    if usage.raw > SCALE {
        Failure {
            kind: ErrorKind::InvariantViolation,
            message: "Alpaca vault with a usage above one"@,
        }
    } else if usage.raw >= model.ceil_slope_1.raw && usage.raw >= model.ceil_slope_2.raw
        && usage.raw > model.ceil_slope_3.raw {
        Failure {
            kind: ErrorKind::InvariantViolation,
            message: "Alpaca interest model with more than three slopes"@,
        }
    } else {
        out_of_range_failure("Alpaca borrow rate"@)
    }
}

/// The rate on one segment.
fn rate_on_segment(usage: Decimal, from: Decimal, to: Decimal, low: Decimal, high: Decimal) -> (r:
    Option<Decimal>)
    ensures
        r == segment_rate(usage, from, to, low, high),
{
    let run = usage.checked_sub(from);
    let width = to.checked_sub(from);
    let rise = high.checked_sub(low);
    match (run, width, rise) {
        (Some(run), Some(width), Some(rise)) => {
            let ratio = run.checked_div(width)?;
            let gained = ratio.checked_mul(rise)?;
            gained.checked_add(low)
        },
        _ => None,
    }
}

impl InterestModel {
    /// The model with the given three ceilings and their maximum rates.
    pub fn new(
        ceil_slope_1: Decimal,
        ceil_slope_2: Decimal,
        ceil_slope_3: Decimal,
        max_interest_slope_1: Decimal,
        max_interest_slope_2: Decimal,
        max_interest_slope_3: Decimal,
    ) -> (model: InterestModel)
        ensures
            model == (InterestModel {
                ceil_slope_1,
                ceil_slope_2,
                ceil_slope_3,
                max_interest_slope_1,
                max_interest_slope_2,
                max_interest_slope_3,
            }),
    {
        InterestModel {
            ceil_slope_1,
            ceil_slope_2,
            ceil_slope_3,
            max_interest_slope_1,
            max_interest_slope_2,
            max_interest_slope_3,
        }
    }

    /// The borrowers' rate at the given usage of the vault. A usage above one
    /// or above the third ceiling breaks the model and is reported as such.
    pub fn get_borrow_rate_from_usage(&self, usage: Decimal) -> (r: Result<Decimal, ApiError>)
        ensures
            match borrow_rate(*self, usage) {
                Some(rate) => r matches Ok(found) && found == rate,
                None => r matches Err(e) && e.failure() == borrow_rate_failure(*self, usage),
            },
    {
        if usage.raw > SCALE {
            return Err(
                ApiError::with_kind(
                    ErrorKind::InvariantViolation,
                    String::from_str("Alpaca vault with a usage above one"),
                ),
            );
        }
        let zero = Decimal::zero();
        let rate = if usage.raw < self.ceil_slope_1.raw {
            rate_on_segment(usage, zero, self.ceil_slope_1, zero, self.max_interest_slope_1)
        } else if usage.raw < self.ceil_slope_2.raw {
            rate_on_segment(
                usage,
                self.ceil_slope_1,
                self.ceil_slope_2,
                self.max_interest_slope_1,
                self.max_interest_slope_2,
            )
        } else if usage.raw <= self.ceil_slope_3.raw {
            rate_on_segment(
                usage,
                self.ceil_slope_2,
                self.ceil_slope_3,
                self.max_interest_slope_2,
                self.max_interest_slope_3,
            )
        } else {
            return Err(
                ApiError::with_kind(
                    ErrorKind::InvariantViolation,
                    String::from_str("Alpaca interest model with more than three slopes"),
                ),
            );
        };
        match rate {
            Some(rate) => Ok(rate),
            None => Err(ApiError::out_of_range("Alpaca borrow rate")),
        }
    }
}

/// A ceiling as the interest model contract reports it, in ten-thousandths:
/// the reading less its last sixteen digits.
pub open spec fn ceiling_of(reading: u128) -> Decimal {
    Decimal { raw: ((reading / 10_000_000_000_000_000) * 100_000) as i128 }
}

/// A maximum rate as the interest model contract reports it, in
/// ten-thousandths: the reading less its last fourteen digits.
pub open spec fn max_rate_of(reading: u128) -> Decimal {
    Decimal { raw: ((reading / 100_000_000_000_000) * 100_000) as i128 }
}

/// The interest model that the six readings of an interest model contract
/// describe: its three ceilings and its three maximum rates.
pub fn get_interest_model(
    ceil_slope_1: u128,
    ceil_slope_2: u128,
    ceil_slope_3: u128,
    max_interest_slope_1: u128,
    max_interest_slope_2: u128,
    max_interest_slope_3: u128,
) -> (model: InterestModel)
    ensures
        model == (InterestModel {
            ceil_slope_1: ceiling_of(ceil_slope_1),
            ceil_slope_2: ceiling_of(ceil_slope_2),
            ceil_slope_3: ceiling_of(ceil_slope_3),
            max_interest_slope_1: max_rate_of(max_interest_slope_1),
            max_interest_slope_2: max_rate_of(max_interest_slope_2),
            max_interest_slope_3: max_rate_of(max_interest_slope_3),
        }),
{
    InterestModel::new(
        ceiling_from(ceil_slope_1),
        ceiling_from(ceil_slope_2),
        ceiling_from(ceil_slope_3),
        max_rate_from(max_interest_slope_1),
        max_rate_from(max_interest_slope_2),
        max_rate_from(max_interest_slope_3),
    )
}

/// A ceiling in ten-thousandths.
fn ceiling_from(reading: u128) -> (ceiling: Decimal)
    ensures
        ceiling == ceiling_of(reading),
{
    let parts: u128 = reading / 10_000_000_000_000_000;
    Decimal { raw: (parts * 100_000) as i128 }
}

/// A maximum rate in ten-thousandths.
fn max_rate_from(reading: u128) -> (rate: Decimal)
    ensures
        rate == max_rate_of(reading),
{
    let parts: u128 = reading / 100_000_000_000_000;
    Decimal { raw: (parts * 100_000) as i128 }
}

/// What was read of one vault for one wallet, and the price of the token that
/// the vault lends.
pub struct AlpacaVault {
    /// The wallet's balance of the vault's interest-bearing token.
    pub balance: u128,
    /// How many of the balance's digits are fractional.
    pub decimals: u8,
    /// The tokens that the vault holds or has lent.
    pub total_token: u128,
    /// The interest-bearing tokens in circulation.
    pub total_supply: u128,
    /// The symbol of the interest-bearing token.
    pub symbol: String,
    /// The tokens that the vault has lent.
    pub vault_debt: u128,
    /// The vault's interest model.
    pub interest_model: InterestModel,
    /// The price of the underlying token in USD.
    pub price: Decimal,
}

/// The lenders' yearly yield: the borrowers' rate at the vault's usage, times
/// the usage, times the lenders' share.
pub open spec fn supply_apy(model: InterestModel, usage: Decimal) -> Option<Decimal> {
    opt_product(
        opt_product(borrow_rate(model, usage), Some(usage)),
        Some(Decimal { raw: LENDING_FEE_SHARE }),
    )
}

/// Why a vault has no yield: it has no borrowers' rate, or the yield left the
/// range of `Decimal`.
pub open spec fn supply_apy_failure(model: InterestModel, usage: Decimal) -> Failure {
    if borrow_rate(model, usage) is None {
        borrow_rate_failure(model, usage)
    } else {
        out_of_range_failure("Alpaca yield"@)
    }
}

/// The failure of a symbol that names no underlying token.
pub open spec fn no_ibtoken(symbol: Seq<char>) -> Failure {
    Failure { kind: ErrorKind::Parse, message: "No valid Alpaca ibToken: "@ + symbol }
}

/// The position that a vault's readings describe. The usage is the debt over
/// the vault's tokens; the units are the balance times the tokens per
/// interest-bearing token. The yield is told first, then the name, then the
/// units, and the first of them that cannot be told is the failure.
pub open spec fn alpaca_asset_of(vault: AlpacaVault) -> Result<AssetModel, Failure> {
    let units = opt_product(
        Decimal::of_units(vault.balance, vault.decimals),
        Decimal::ratio_of(vault.total_token, vault.total_supply),
    );
    let name = named_capture(ibtoken_pattern(), underlying_group(), vault.symbol@);
    match Decimal::ratio_of(vault.vault_debt, vault.total_token) {
        None => Err(out_of_range_failure("Alpaca usage"@)),
        Some(usage) => match supply_apy(vault.interest_model, usage) {
            None => Err(supply_apy_failure(vault.interest_model, usage)),
            Some(apy) => match name {
                None => Err(no_ibtoken(vault.symbol@)),
                Some(name) => match units {
                    None => Err(out_of_range_failure("Alpaca position"@)),
                    Some(units) => Ok(
                        AssetModel {
                            name,
                            description: vault.symbol@,
                            units,
                            unit_price: vault.price,
                            nominal_growth: apy,
                        },
                    ),
                },
            },
        },
    }
}

/// What a vault adds to the wallet's assets: nothing where the wallet holds
/// none of its tokens.
pub open spec fn alpaca_outcome(vault: AlpacaVault) -> Option<Result<AssetModel, Failure>> {
    if vault.balance == 0 {
        None
    } else {
        Some(alpaca_asset_of(vault))
    }
}

/// No position in a vault has a negative number of units.
pub proof fn lemma_alpaca_units_not_negative(vault: AlpacaVault)
    ensures
        alpaca_asset_of(vault) matches Ok(model) ==> model.units.raw >= 0,
{
    lemma_amounts_not_negative(vault.balance, vault.decimals, vault.total_token, vault.total_supply);
    if alpaca_asset_of(vault) is Ok {
        lemma_product_not_negative(
            Decimal::of_units(vault.balance, vault.decimals)->0,
            Decimal::ratio_of(vault.total_token, vault.total_supply)->0,
        );
    }
}

/// The lenders' yearly yield of a vault.
fn lending_apy(model: &InterestModel, usage: Decimal) -> (r: Result<Decimal, ApiError>)
    ensures
        match supply_apy(*model, usage) {
            Some(apy) => r matches Ok(found) && found == apy,
            None => r matches Err(e) && e.failure() == supply_apy_failure(*model, usage),
        },
{
    let rate = model.get_borrow_rate_from_usage(usage)?;
    let apy = match rate.checked_mul(usage) {
        Some(used) => used.checked_mul(Decimal { raw: LENDING_FEE_SHARE }),
        None => None,
    };
    match apy {
        Some(apy) => Ok(apy),
        None => Err(ApiError::out_of_range("Alpaca yield")),
    }
}

/// The position that a vault's readings describe.
pub fn alpaca_asset(vault: &AlpacaVault) -> (r: Result<DefiAsset, ApiError>)
    ensures
        match alpaca_asset_of(*vault) {
            Ok(model) => r matches Ok(asset) && asset.model() == model,
            Err(failure) => r matches Err(e) && e.failure() == failure,
        },
{
    let usage = match Decimal::ratio(vault.vault_debt, vault.total_token) {
        Some(usage) => usage,
        None => {
            return Err(ApiError::out_of_range("Alpaca usage"));
        },
    };
    let apy = lending_apy(&vault.interest_model, usage)?;
    let name = get_underlaying_name(&vault.symbol)?;
    let held = Decimal::from_units(vault.balance, vault.decimals);
    let ratio = Decimal::ratio(vault.total_token, vault.total_supply);
    let units = match (held, ratio) {
        (Some(held), Some(ratio)) => held.checked_mul(ratio),
        _ => None,
    };
    match units {
        Some(units) => Ok(DefiAsset::new(apy, name, units, vault.price, vault.symbol.clone())),
        None => Err(ApiError::out_of_range("Alpaca position")),
    }
}

/// The wallet's positions in the given vaults, in the order of the vaults. A
/// vault of which the wallet holds nothing adds nothing; the first vault whose
/// readings cannot be valued fails the whole list.
pub fn get_alpaca_assets(vaults: &Vec<AlpacaVault>) -> (r: Result<Vec<DefiAsset>, ApiError>)
    ensures
        match gathered(vaults@.map_values(|v: AlpacaVault| alpaca_outcome(v))) {
            Ok(models) => r matches Ok(assets) && models_of(assets@) == models,
            Err(failure) => r matches Err(e) && e.failure() == failure,
        },
{
    let ghost outcomes = vaults@.map_values(|v: AlpacaVault| alpaca_outcome(v));
    let mut res: Vec<DefiAsset> = Vec::new();
    let mut i: usize = 0;
    proof {
        assert(outcomes.take(0) =~= Seq::empty());
        assert(models_of(res@) =~= Seq::empty());
    }
    while i < vaults.len()
        invariant
            i <= vaults.len(),
            outcomes == vaults@.map_values(|v: AlpacaVault| alpaca_outcome(v)),
            gathered(outcomes.take(i as int)) == Ok::<Seq<AssetModel>, Failure>(models_of(res@)),
        decreases vaults.len() - i,
    {
        proof {
            lemma_gathered_step(outcomes, i as int);
        }
        let ghost before = res@;
        if holds_position(vaults[i].balance) {
            match alpaca_asset(&vaults[i]) {
                Ok(asset) => {
                    res.push(asset);
                    proof {
                        assert(models_of(res@) =~= models_of(before).push(asset.model()));
                    }
                },
                Err(e) => {
                    proof {
                        lemma_gathered_failure_stays(outcomes, i + 1);
                    }
                    return Err(e);
                },
            }
        }
        i = i + 1;
    }
    proof {
        assert(outcomes.take(i as int) =~= outcomes);
    }
    Ok(res)
}

} // verus!
