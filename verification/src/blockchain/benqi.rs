use vstd::prelude::*;
use vstd::string::StringExecFns;
use crate::asset::{Asset, AssetModel};
use crate::blockchain::defiasset::{models_of, DefiAsset};
use crate::blockchain::{holds_position, underlying_from_capture};
use crate::decimal::{
    lemma_amounts_not_negative, lemma_of_units_defined, lemma_product_not_negative, opt_product, opt_quotient, opt_scaled, opt_sum, Decimal,
};
use crate::error::{out_of_range_failure, ApiError, ErrorKind, Failure};
use crate::gather::{gathered, lemma_gathered_failure_stays, lemma_gathered_step};
use crate::text::{capture_named, named_capture};

verus! {

/// The fractional digits of reward amounts, in QI and in AVAX alike.
pub const DIGITS_AVAX_AND_BENQI_FOR_PENDING_REWARDS: u8 = 18;

/// The blocks that the chain makes in a minute.
pub const BLOCKS_PER_MINUTE: u8 = 30;

/// The blocks of a year, at thirty a minute.
pub const BLOCKS_PER_YEAR: u64 = 15_768_000;

/// The seconds of a year of 365 days.
pub const SECONDS_PER_YEAR: u128 = 31_536_000;

/// The expression that a Benqi token's symbol must hold: `qi` and three or
/// four capital letters, which name the underlying token.
pub open spec fn qitoken_pattern() -> Seq<char> {
    "qi(?P<underlaying>[A-Z]{3,4})"@
}

/// The name of the group that holds the underlying token.
pub open spec fn underlying_group() -> Seq<char> {
    "underlaying"@
}

/// The token that underlies a Benqi token.
pub fn get_underlaying_name(benqi_token: &String) -> (r: Result<String, ApiError>)
    ensures
        match named_capture(qitoken_pattern(), underlying_group(), benqi_token@) {
            Some(name) => r matches Ok(found) && found@ == name,
            None => r matches Err(e) && e.kind() == ErrorKind::Parse && e.message()
                == "No valid Benqi Token: "@ + benqi_token@,
        },
{
    let capture = capture_named(
        "qi(?P<underlaying>[A-Z]{3,4})",
        "underlaying",
        benqi_token.as_str(),
    );
    underlying_from_capture(capture, "No valid Benqi Token: ", benqi_token.as_str())
}

/// A reward amount as the comptroller reports it, in whole tokens.
pub open spec fn reward_of(reading: u128) -> Decimal {
    Decimal::of_units(reading, DIGITS_AVAX_AND_BENQI_FOR_PENDING_REWARDS)->0
}

/// A reward amount in whole tokens.
pub fn reward_from(reading: u128) -> (amount: Decimal)
    ensures
        Some(amount) == Decimal::of_units(reading, DIGITS_AVAX_AND_BENQI_FOR_PENDING_REWARDS),
        amount == reward_of(reading),
{
    proof {
        lemma_of_units_defined(reading, DIGITS_AVAX_AND_BENQI_FOR_PENDING_REWARDS);
    }
    match Decimal::from_units(reading, DIGITS_AVAX_AND_BENQI_FOR_PENDING_REWARDS) {
        Some(amount) => amount,
        None => Decimal::zero(),
    }
}

/// The rewards that a pool hands out with every block, in QI and in AVAX, from
/// the two reward speeds that the comptroller reports for the pool.
pub fn get_benqi_avax_rewards_of_pool(reward_speed_benqi: u128, reward_speed_avax: u128) -> (speeds:
    (Decimal, Decimal))
    ensures
        speeds.0 == reward_of(reward_speed_benqi),
        speeds.1 == reward_of(reward_speed_avax),
{
    (reward_from(reward_speed_benqi), reward_from(reward_speed_avax))
}

/// What was read of one Benqi market for one wallet, and the price of the
/// token that the market lends.
pub struct BenqiMarket {
    /// The wallet's balance of the market's token.
    pub balance: u128,
    /// How many of the balance's digits are fractional.
    pub decimals: u8,
    /// Underlying tokens per market token, with 28 fractional digits.
    pub exchange_rate: u128,
    /// The lenders' yield per second, with 18 fractional digits.
    pub supply_rate_per_timestamp: u128,
    /// The symbol of the market's token.
    pub symbol: String,
    /// The price of the underlying token in USD.
    pub price: Decimal,
    /// The market tokens in circulation.
    pub total_supply: u128,
    /// The QI that the pool hands out per block, with 18 fractional digits.
    pub reward_speed_benqi: u128,
    /// The AVAX that the pool hands out per block, with 18 fractional digits.
    pub reward_speed_avax: u128,
}

/// What was read for the wallet as a whole: the prices of the two reward
/// tokens, and the rewards that the wallet has not claimed yet.
pub struct BenqiRewards {
    /// The price of QI in USD.
    pub benqi_price: Decimal,
    /// The price of AVAX in USD.
    pub avax_price: Decimal,
    /// The unclaimed QI, with 18 fractional digits.
    pub outstanding_qi: u128,
    /// The unclaimed AVAX, with 18 fractional digits.
    pub outstanding_avax: u128,
}

/// The lenders' yearly yield before rewards: the yield per second times the
/// seconds of a year, not compounded.
pub open spec fn base_apy(supply_rate_per_timestamp: u128) -> Option<Decimal> {
    if supply_rate_per_timestamp * SECONDS_PER_YEAR <= u128::MAX {
        Decimal::of_units((supply_rate_per_timestamp * SECONDS_PER_YEAR) as u128, 18)
    } else {
        None
    }
}

/// The yearly rate at which a pool's rewards add to its value, times one
/// hundred: the value in USD of the rewards of one block, times the blocks of
/// a year, over the value in USD of the pool's supply.
pub open spec fn reward_apr(market: BenqiMarket, benqi_price: Decimal, avax_price: Decimal) -> Option<
    Decimal,
> {
    let block_reward = opt_sum(
        reward_of(market.reward_speed_benqi).product(benqi_price),
        reward_of(market.reward_speed_avax).product(avax_price),
    );
    let year_rewards = opt_scaled(block_reward, BLOCKS_PER_YEAR);
    let pool_value = opt_product(
        Decimal::of_units(market.total_supply, market.decimals),
        Some(market.price),
    );
    opt_scaled(opt_quotient(year_rewards, pool_value), 100)
}

/// The position that a market's readings describe. Its growth is the base
/// yield plus the reward rate; its units are the balance times the exchange
/// rate.
pub open spec fn benqi_asset_of(
    market: BenqiMarket,
    benqi_price: Decimal,
    avax_price: Decimal,
) -> Result<AssetModel, Failure> {
    let name = named_capture(qitoken_pattern(), underlying_group(), market.symbol@);
    let apy = opt_sum(
        base_apy(market.supply_rate_per_timestamp),
        reward_apr(market, benqi_price, avax_price),
    );
    let units = opt_product(
        Decimal::of_units(market.balance, market.decimals),
        Decimal::of_units(market.exchange_rate, 28),
    );
    match (name, apy, units) {
        (None, _, _) => Err(
            Failure { kind: ErrorKind::Parse, message: "No valid Benqi Token: "@ + market.symbol@ },
        ),
        (Some(name), Some(apy), Some(units)) => Ok(
            AssetModel {
                name,
                description: market.symbol@,
                units,
                unit_price: market.price,
                nominal_growth: apy,
            },
        ),
        _ => Err(out_of_range_failure("Benqi position"@)),
    }
}

/// What a market adds to the wallet's assets: nothing where the wallet holds
/// none of its tokens.
pub open spec fn benqi_outcome(
    market: BenqiMarket,
    benqi_price: Decimal,
    avax_price: Decimal,
) -> Option<Result<AssetModel, Failure>> {
    if market.balance == 0 {
        None
    } else {
        Some(benqi_asset_of(market, benqi_price, avax_price))
    }
}

/// What unclaimed rewards add to the wallet's assets: a holding of the reward
/// token that does not grow, and nothing where there are none.
pub open spec fn pending_outcome(
    outstanding: u128,
    token: Seq<char>,
    description: Seq<char>,
    price: Decimal,
) -> Option<Result<AssetModel, Failure>> {
    if outstanding == 0 {
        None
    } else {
        Some(
            Ok(
                AssetModel {
                    name: token,
                    description,
                    units: reward_of(outstanding),
                    unit_price: price,
                    nominal_growth: Decimal { raw: 0 },
                },
            ),
        )
    }
}

/// All that the wallet's Benqi readings add to its assets: one step for each
/// market, in order, then the unclaimed QI, then the unclaimed AVAX.
pub open spec fn benqi_outcomes(markets: Seq<BenqiMarket>, rewards: BenqiRewards) -> Seq<
    Option<Result<AssetModel, Failure>>,
> {
    markets.map_values(
        |m: BenqiMarket| benqi_outcome(m, rewards.benqi_price, rewards.avax_price),
    ).push(
        pending_outcome(
            rewards.outstanding_qi,
            "QI"@,
            "QI pending on Benqi"@,
            rewards.benqi_price,
        ),
    ).push(
        pending_outcome(
            rewards.outstanding_avax,
            "AVAX"@,
            "AVAX pending on Benqi"@,
            rewards.avax_price,
        ),
    )
}

/// No position in a market has a negative number of units, and neither have
/// unclaimed rewards.
pub proof fn lemma_benqi_units_not_negative(
    market: BenqiMarket,
    benqi_price: Decimal,
    avax_price: Decimal,
    outstanding: u128,
)
    ensures
        benqi_asset_of(market, benqi_price, avax_price) matches Ok(model) ==> model.units.raw >= 0,
        reward_of(outstanding).raw >= 0,
{
    lemma_amounts_not_negative(market.balance, market.decimals, 0, 0);
    lemma_amounts_not_negative(market.exchange_rate, 28, 0, 0);
    if benqi_asset_of(market, benqi_price, avax_price) is Ok {
        lemma_product_not_negative(
            Decimal::of_units(market.balance, market.decimals)->0,
            Decimal::of_units(market.exchange_rate, 28)->0,
        );
    }
    lemma_of_units_defined(outstanding, DIGITS_AVAX_AND_BENQI_FOR_PENDING_REWARDS);
}

/// The yearly yield before rewards.
fn yearly_base(supply_rate_per_timestamp: u128) -> (r: Option<Decimal>)
    ensures
        r == base_apy(supply_rate_per_timestamp),
{
    let per_year = supply_rate_per_timestamp.checked_mul(SECONDS_PER_YEAR)?;
    Decimal::from_units(per_year, 18)
}

/// The yearly reward rate of a pool, times one hundred.
fn yearly_rewards(market: &BenqiMarket, benqi_price: Decimal, avax_price: Decimal) -> (r: Option<
    Decimal,
>)
    ensures
        r == reward_apr(*market, benqi_price, avax_price),
{
    let (qi_block_reward, avax_block_reward) = get_benqi_avax_rewards_of_pool(
        market.reward_speed_benqi,
        market.reward_speed_avax,
    );
    let qi_usd = qi_block_reward.checked_mul(benqi_price);
    let avax_usd = avax_block_reward.checked_mul(avax_price);
    let supply = Decimal::from_units(market.total_supply, market.decimals);
    match (qi_usd, avax_usd, supply) {
        (Some(qi_usd), Some(avax_usd), Some(supply)) => {
            let block_reward = qi_usd.checked_add(avax_usd)?;
            let year_rewards = block_reward.checked_scale(BLOCKS_PER_YEAR)?;
            let pool_value = supply.checked_mul(market.price)?;
            let rate = year_rewards.checked_div(pool_value)?;
            rate.checked_scale(100)
        },
        _ => None,
    }
}

/// The position that a market's readings describe.
pub fn benqi_asset(market: &BenqiMarket, benqi_price: Decimal, avax_price: Decimal) -> (r: Result<
    DefiAsset,
    ApiError,
>)
    ensures
        match benqi_asset_of(*market, benqi_price, avax_price) {
            Ok(model) => r matches Ok(asset) && asset.model() == model,
            Err(failure) => r matches Err(e) && e.failure() == failure,
        },
{
    let name = get_underlaying_name(&market.symbol)?;
    let base = yearly_base(market.supply_rate_per_timestamp);
    let rewards = yearly_rewards(market, benqi_price, avax_price);
    let apy = match (base, rewards) {
        (Some(base), Some(rewards)) => base.checked_add(rewards),
        _ => None,
    };
    let held = Decimal::from_units(market.balance, market.decimals);
    let rate = Decimal::from_units(market.exchange_rate, 28);
    let units = match (held, rate) {
        (Some(held), Some(rate)) => held.checked_mul(rate),
        _ => None,
    };
    match (apy, units) {
        (Some(apy), Some(units)) => Ok(
            DefiAsset::new(apy, name, units, market.price, market.symbol.clone()),
        ),
        _ => Err(ApiError::out_of_range("Benqi position")),
    }
}

/// The wallet's Benqi assets: its positions in the given markets, in the order
/// of the markets, then what it has not yet claimed of QI and of AVAX. A
/// market of which the wallet holds nothing adds nothing, and so does a reward
/// of which nothing is unclaimed; the first market whose readings cannot be
/// valued fails the whole list.
pub fn get_benqi_assets(markets: &Vec<BenqiMarket>, rewards: &BenqiRewards) -> (r: Result<
    Vec<DefiAsset>,
    ApiError,
>)
    ensures
        match gathered(benqi_outcomes(markets@, *rewards)) {
            Ok(models) => r matches Ok(assets) && models_of(assets@) == models,
            Err(failure) => r matches Err(e) && e.failure() == failure,
        },
{
    let ghost outcomes = benqi_outcomes(markets@, *rewards);
    let ghost count = markets@.len() as int;
    let mut res: Vec<DefiAsset> = Vec::new();
    let mut i: usize = 0;
    proof {
        assert(outcomes.take(0) =~= Seq::empty());
        assert(models_of(res@) =~= Seq::empty());
    }
    while i < markets.len()
        invariant
            i <= markets.len(),
            count == markets@.len(),
            outcomes == benqi_outcomes(markets@, *rewards),
            gathered(outcomes.take(i as int)) == Ok::<Seq<AssetModel>, Failure>(models_of(res@)),
        decreases markets.len() - i,
    {
        proof {
            lemma_gathered_step(outcomes, i as int);
            assert(outcomes[i as int] == benqi_outcome(
                markets@[i as int],
                rewards.benqi_price,
                rewards.avax_price,
            ));
        }
        let ghost before = res@;
        if holds_position(markets[i].balance) {
            match benqi_asset(&markets[i], rewards.benqi_price, rewards.avax_price) {
                Ok(asset) => {
                    res.push(asset);
                    proof {
                        assert(models_of(res@) =~= models_of(before).push(asset.model()));
                    }
                },
                Err(e) => {
                    proof {
                        lemma_gathered_failure_stays(outcomes, i + 1);
                    }
                    return Err(e);
                },
            }
        }
        i = i + 1;
    }
    proof {
        lemma_gathered_step(outcomes, count);
        lemma_gathered_step(outcomes, count + 1);
        assert(outcomes.take(count + 2) =~= outcomes);
    }
    if rewards.outstanding_qi > 0 {
        let ghost before = res@;
        let pending = DefiAsset::new(
            Decimal::zero(),
            String::from_str("QI"),
            reward_from(rewards.outstanding_qi),
            rewards.benqi_price,
            String::from_str("QI pending on Benqi"),
        );
        res.push(pending);
        proof {
            assert(models_of(res@) =~= models_of(before).push(pending.model()));
        }
    }
    if rewards.outstanding_avax > 0 {
        let ghost before = res@;
        let pending = DefiAsset::new(
            Decimal::zero(),
            String::from_str("AVAX"),
            reward_from(rewards.outstanding_avax),
            rewards.avax_price,
            String::from_str("AVAX pending on Benqi"),
        );
        res.push(pending);
        proof {
            assert(models_of(res@) =~= models_of(before).push(pending.model()));
        }
    }
    Ok(res)
}

} // verus!
