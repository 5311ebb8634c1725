use vstd::prelude::*;
use crate::asset::{Asset, AssetModel};
use crate::blockchain::defiasset::{models_of, DefiAsset};
use crate::blockchain::{holds_position, underlying_from_capture};
use crate::decimal::{
    lemma_amounts_not_negative, lemma_product_not_negative, opt_difference, opt_product, opt_sum,
    unit, Decimal,
};
use crate::error::{out_of_range_failure, ApiError, ErrorKind, Failure};
use crate::gather::{gathered, lemma_gathered_failure_stays, lemma_gathered_step};
use crate::text::{capture_named, named_capture};

verus! {

/// The blocks that the chain makes in a day, at twenty a minute.
pub const BLOCKS_PER_DAY: u128 = 28_800;

/// The days over which a day's yield compounds.
pub const DAYS_PER_YEAR: u16 = 365;

/// The expression that a Venus token's symbol must hold: `v` or `x` and three
/// or four capital letters, which name the underlying token.
pub open spec fn vtoken_pattern() -> Seq<char> {
    "(v|x)(?P<underlaying>[A-Z]{3,4})"@
}

/// The name of the group that holds the underlying token.
pub open spec fn underlying_group() -> Seq<char> {
    "underlaying"@
}

/// The token that underlies a Venus token.
pub fn get_underlaying_name(vtoken: &String) -> (r: Result<String, ApiError>)
    ensures
        match named_capture(vtoken_pattern(), underlying_group(), vtoken@) {
            Some(name) => r matches Ok(found) && found@ == name,
            None => r matches Err(e) && e.kind() == ErrorKind::Parse && e.message()
                == "No valid Venus Token: "@ + vtoken@,
        },
{
    let capture = capture_named("(v|x)(?P<underlaying>[A-Z]{3,4})", "underlaying", vtoken.as_str());
    underlying_from_capture(capture, "No valid Venus Token: ", vtoken.as_str())
}

/// What was read of one Venus market for one wallet, and the price of the
/// token that the market lends.
pub struct VenusMarket {
    /// The wallet's balance of the market's token.
    pub balance: u128,
    /// How many of the balance's digits are fractional.
    pub decimals: u8,
    /// Underlying tokens per market token, with 28 fractional digits.
    pub exchange_rate: u128,
    /// The symbol of the market's token.
    pub symbol: String,
    /// The lenders' yield per block, with 18 fractional digits.
    pub supply_rate_per_block: u128,
    /// The price of the underlying token in USD.
    pub price: Decimal,
}

/// `base` multiplied by itself `periods` times, each product rounded down to a
/// billionth.
pub open spec fn compounded(base: Decimal, periods: nat) -> Option<Decimal>
    decreases periods,
{
    if periods == 0 {
        Some(unit())
    } else {
        opt_product(compounded(base, (periods - 1) as nat), Some(base))
    }
}

/// The yield of one day: the yield per block times the blocks of a day.
pub open spec fn daily_yield(supply_rate_per_block: u128) -> Option<Decimal> {
    if supply_rate_per_block * BLOCKS_PER_DAY <= u128::MAX {
        Decimal::of_units((supply_rate_per_block * BLOCKS_PER_DAY) as u128, 18)
    } else {
        None
    }
}

/// The yearly yield of a market whose daily yield compounds every day:
/// `(1 + rate * blocks per day)^365 - 1`.
pub open spec fn venus_apy(supply_rate_per_block: u128) -> Option<Decimal> {
    match opt_sum(Some(unit()), daily_yield(supply_rate_per_block)) {
        Some(base) => opt_difference(compounded(base, DAYS_PER_YEAR as nat), Some(unit())),
        None => None,
    }
}

/// The position that a market's readings describe: the units are the balance
/// times the exchange rate. The yield is told first, then the name, then the
/// units, and the first of them that cannot be told is the failure.
pub open spec fn venus_asset_of(market: VenusMarket) -> Result<AssetModel, Failure> {
    let apy = venus_apy(market.supply_rate_per_block);
    let name = named_capture(vtoken_pattern(), underlying_group(), market.symbol@);
    let units = opt_product(
        Decimal::of_units(market.balance, market.decimals),
        Decimal::of_units(market.exchange_rate, 28),
    );
    match (apy, name, units) {
        (None, _, _) => Err(out_of_range_failure("Venus yield"@)),
        (Some(_), None, _) => Err(
            Failure { kind: ErrorKind::Parse, message: "No valid Venus Token: "@ + market.symbol@ },
        ),
        (Some(_), Some(_), None) => Err(out_of_range_failure("Venus position"@)),
        (Some(apy), Some(name), Some(units)) => Ok(
            AssetModel {
                name,
                description: market.symbol@,
                units,
                unit_price: market.price,
                nominal_growth: apy,
            },
        ),
    }
}

/// What a market adds to the wallet's assets: nothing where the wallet holds
/// none of its tokens.
pub open spec fn venus_outcome(market: VenusMarket) -> Option<Result<AssetModel, Failure>> {
    if market.balance == 0 {
        None
    } else {
        Some(venus_asset_of(market))
    }
}

/// No position in a market has a negative number of units.
pub proof fn lemma_venus_units_not_negative(market: VenusMarket)
    ensures
        venus_asset_of(market) matches Ok(model) ==> model.units.raw >= 0,
{
    lemma_amounts_not_negative(market.balance, market.decimals, 0, 0);
    lemma_amounts_not_negative(market.exchange_rate, 28, 0, 0);
    if venus_asset_of(market) is Ok {
        lemma_product_not_negative(
            Decimal::of_units(market.balance, market.decimals)->0,
            Decimal::of_units(market.exchange_rate, 28)->0,
        );
    }
}

/// `base` compounded over `periods` periods.
pub fn compound(base: Decimal, periods: u16) -> (r: Option<Decimal>)
    ensures
        r == compounded(base, periods as nat),
{
    let mut grown = Decimal::one();
    let mut done: u16 = 0;
    while done < periods
        invariant
            done <= periods,
            Some(grown) == compounded(base, done as nat),
        decreases periods - done,
    {
        match grown.checked_mul(base) {
            Some(next) => {
                grown = next;
            },
            None => {
                proof {
                    lemma_compounded_stays_undefined(base, (done + 1) as nat, periods as nat);
                }
                return None;
            },
        }
        done = done + 1;
    }
    Some(grown)
}

/// Once compounding has left the range of `Decimal` it does not come back.
pub proof fn lemma_compounded_stays_undefined(base: Decimal, early: nat, late: nat)
    requires
        early <= late,
        compounded(base, early) is None,
    ensures
        compounded(base, late) is None,
    decreases late,
{
    if early < late {
        lemma_compounded_stays_undefined(base, early, (late - 1) as nat);
    }
}

/// The yearly yield of a market with the given yield per block.
pub fn yearly_yield(supply_rate_per_block: u128) -> (r: Option<Decimal>)
    ensures
        r == venus_apy(supply_rate_per_block),
{
    let per_day = supply_rate_per_block.checked_mul(BLOCKS_PER_DAY)?;
    let daily = Decimal::from_units(per_day, 18)?;
    let base = Decimal::one().checked_add(daily)?;
    let grown = compound(base, DAYS_PER_YEAR)?;
    grown.checked_sub(Decimal::one())
}

/// The position that a market's readings describe.
pub fn venus_asset(market: &VenusMarket) -> (r: Result<DefiAsset, ApiError>)
    ensures
        match venus_asset_of(*market) {
            Ok(model) => r matches Ok(asset) && asset.model() == model,
            Err(failure) => r matches Err(e) && e.failure() == failure,
        },
{
    let apy = match yearly_yield(market.supply_rate_per_block) {
        Some(apy) => apy,
        None => {
            return Err(ApiError::out_of_range("Venus yield"));
        },
    };
    let name = get_underlaying_name(&market.symbol)?;
    let held = Decimal::from_units(market.balance, market.decimals);
    let rate = Decimal::from_units(market.exchange_rate, 28);
    let units = match (held, rate) {
        (Some(held), Some(rate)) => held.checked_mul(rate),
        _ => None,
    };
    match units {
        Some(units) => Ok(DefiAsset::new(apy, name, units, market.price, market.symbol.clone())),
        None => Err(ApiError::out_of_range("Venus position")),
    }
}

/// The wallet's positions in the given markets, in the order of the markets.
/// A market of which the wallet holds nothing adds nothing; the first market
/// whose readings cannot be valued fails the whole list.
pub fn get_venus_assets(markets: &Vec<VenusMarket>) -> (r: Result<Vec<DefiAsset>, ApiError>)
    ensures
        match gathered(markets@.map_values(|m: VenusMarket| venus_outcome(m))) {
            Ok(models) => r matches Ok(assets) && models_of(assets@) == models,
            Err(failure) => r matches Err(e) && e.failure() == failure,
        },
{
    let ghost outcomes = markets@.map_values(|m: VenusMarket| venus_outcome(m));
    let mut res: Vec<DefiAsset> = Vec::new();
    let mut i: usize = 0;
    proof {
        assert(outcomes.take(0) =~= Seq::empty());
        assert(models_of(res@) =~= Seq::empty());
    }
    while i < markets.len()
        invariant
            i <= markets.len(),
            outcomes == markets@.map_values(|m: VenusMarket| venus_outcome(m)),
            gathered(outcomes.take(i as int)) == Ok::<Seq<AssetModel>, Failure>(models_of(res@)),
        decreases markets.len() - i,
    {
        proof {
            lemma_gathered_step(outcomes, i as int);
        }
        let ghost before = res@;
        if holds_position(markets[i].balance) {
            match venus_asset(&markets[i]) {
                Ok(asset) => {
                    res.push(asset);
                    proof {
                        assert(models_of(res@) =~= models_of(before).push(asset.model()));
                    }
                },
                Err(e) => {
                    proof {
                        lemma_gathered_failure_stays(outcomes, i + 1);
                    }
                    return Err(e);
                },
            }
        }
        i = i + 1;
    }
    proof {
        assert(outcomes.take(i as int) =~= outcomes);
    }
    Ok(res)
}

} // verus!
