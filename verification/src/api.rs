use vstd::prelude::*;
use crate::asset::{Asset, AssetModel};
use crate::decimal::{
    fits, opt_difference, opt_product, opt_quotient, opt_sum, unit, Decimal, SCALE,
};
use crate::domainconfig::{text_of, Fund};
use crate::ethereum::EthereumNode;
use crate::table::Table;
use crate::error::{out_of_range_failure, ApiError, ErrorKind, Failure};
use crate::growth::real_growth;

verus! {

/// What is added to both sides of a fund's growth ratio so that an empty fund
/// divides by more than nothing: a hundred-thousandth.
pub const EPSILON: i128 = 10_000;

/// A holding as it is reported.
pub struct AssetDto {
    pub name: String,
    pub description: String,
    pub nominal_growth: Decimal,
    pub real_growth: Decimal,
    pub units: Decimal,
    pub unit_price: Decimal,
}

/// A fund as it is reported: what it is worth, how it grows, and what it holds.
pub struct FundDto {
    pub name: String,
    pub icon: Option<String>,
    pub balance: Decimal,
    pub nominal_yearly_growth: Decimal,
    pub real_yearly_growth: Decimal,
    pub assets: Vec<AssetDto>,
    pub target_size: Option<Decimal>,
}

/// The worth of a holding in USD: its units times the price of one.
pub open spec fn value_of(asset: AssetDto) -> Option<Decimal> {
    asset.units.product(asset.unit_price)
}

/// The worth of a holding after a year of the given growth.
pub open spec fn grown_value_of(asset: AssetDto, growth: Decimal) -> Option<Decimal> {
    opt_product(value_of(asset), unit().sum(growth))
}

/// The worth of all holdings together.
pub open spec fn balance_of(assets: Seq<AssetDto>) -> Option<Decimal>
    decreases assets.len(),
{
    if assets.len() == 0 {
        Some(Decimal { raw: 0 })
    } else {
        opt_sum(balance_of(assets.drop_last()), value_of(assets.last()))
    }
}

/// The worth of all holdings together after a year, each grown at its
/// nominal rate.
pub open spec fn nominal_balance_in_one_year(assets: Seq<AssetDto>) -> Option<Decimal>
    decreases assets.len(),
{
    if assets.len() == 0 {
        Some(Decimal { raw: 0 })
    } else {
        opt_sum(
            nominal_balance_in_one_year(assets.drop_last()),
            grown_value_of(assets.last(), assets.last().nominal_growth),
        )
    }
}

/// The worth of all holdings together after a year, each grown at its real
/// rate.
pub open spec fn real_balance_in_one_year(assets: Seq<AssetDto>) -> Option<Decimal>
    decreases assets.len(),
{
    if assets.len() == 0 {
        Some(Decimal { raw: 0 })
    } else {
        opt_sum(
            real_balance_in_one_year(assets.drop_last()),
            grown_value_of(assets.last(), assets.last().real_growth),
        )
    }
}

/// The growth that takes `balance` to `in_one_year`, with `EPSILON` added to
/// both: `(in_one_year + epsilon) / (balance + epsilon) - 1`. Over a fund's
/// holdings this is the average of their growth rates, weighted by worth.
pub open spec fn weighted_growth(in_one_year: Option<Decimal>, balance: Option<Decimal>) -> Option<
    Decimal,
> {
    let epsilon = Some(Decimal { raw: EPSILON });
    opt_difference(
        opt_quotient(opt_sum(in_one_year, epsilon), opt_sum(balance, epsilon)),
        Some(unit()),
    )
}

impl Clone for AssetDto {
    fn clone(&self) -> (copy: AssetDto)
        ensures
            copy == *self,
    {
        AssetDto {
            name: self.name.clone(),
            description: self.description.clone(),
            nominal_growth: self.nominal_growth,
            real_growth: self.real_growth,
            units: self.units,
            unit_price: self.unit_price,
        }
    }
}

impl AssetDto {
    /// The worth of the holding in USD, or `None` where it cannot be held.
    pub fn value(&self) -> (worth: Option<Decimal>)
        ensures
            worth == value_of(*self),
    {
        self.units.checked_mul(self.unit_price)
    }

    /// The report of a holding. A holding is not measured against inflation,
    /// so its real growth is its nominal growth.
    pub fn from_asset<A: Asset>(asset: &A) -> (dto: AssetDto)
        ensures
            dto.name@ == asset.model().name,
            dto.description@ == asset.model().description,
            dto.units == asset.model().units,
            dto.unit_price == asset.model().unit_price,
            dto.nominal_growth == asset.model().nominal_growth,
            Some(dto.real_growth) == real_growth(asset.model().nominal_growth, None),
    {
        let nominal = asset.get_growth().get_nominal_growth();
        let after = match asset.get_growth().get_real_growth() {
            Some(after) => after,
            None => nominal,
        };
        AssetDto {
            name: asset.get_name(),
            description: asset.get_description(),
            nominal_growth: nominal,
            real_growth: after,
            units: asset.get_units(),
            unit_price: asset.get_unit_price(),
        }
    }
}

/// The sum of two results.
fn add_results(a: Option<Decimal>, b: Option<Decimal>) -> (r: Option<Decimal>)
    ensures
        r == opt_sum(a, b),
{
    match (a, b) {
        (Some(a), Some(b)) => a.checked_add(b),
        _ => None,
    }
}

/// The growth that takes `balance` to `in_one_year`.
fn growth_between(in_one_year: Option<Decimal>, balance: Option<Decimal>) -> (r: Option<Decimal>)
    ensures
        r == weighted_growth(in_one_year, balance),
{
    let epsilon = Some(Decimal { raw: EPSILON });
    let above = add_results(in_one_year, epsilon);
    let below = add_results(balance, epsilon);
    match (above, below) {
        (Some(above), Some(below)) => {
            let ratio = above.checked_div(below)?;
            ratio.checked_sub(Decimal::one())
        },
        _ => None,
    }
}

impl FundDto {
    /// The report of a fund that holds `assets`: its balance is their worth
    /// together, its growth rates are theirs weighted by worth. It fails where
    /// a sum, a product or a quotient leaves the range of `Decimal`, or where
    /// the balance and the epsilon make nothing to divide by.
    pub fn new(
        name: String,
        icon: Option<String>,
        assets: Vec<AssetDto>,
        target_size: Option<Decimal>,
    ) -> (r: Result<FundDto, ApiError>)
        ensures
            match (
                balance_of(assets@),
                weighted_growth(nominal_balance_in_one_year(assets@), balance_of(assets@)),
                weighted_growth(real_balance_in_one_year(assets@), balance_of(assets@)),
            ) {
                (Some(balance), Some(nominal), Some(after)) => r matches Ok(fund) && fund == (
                    FundDto {
                        name,
                        icon,
                        balance,
                        nominal_yearly_growth: nominal,
                        real_yearly_growth: after,
                        assets,
                        target_size,
                    }
                ),
                _ => r matches Err(e) && e.failure() == out_of_range_failure("fund summary"@),
            },
    {
        let mut balance: Option<Decimal> = Some(Decimal::zero());
        let mut balance_in_one_year: Option<Decimal> = Some(Decimal::zero());
        let mut real_balance: Option<Decimal> = Some(Decimal::zero());
        let mut i: usize = 0;
        assert(assets@.take(0) =~= Seq::empty());
        while i < assets.len()
            invariant
                i <= assets.len(),
                balance == balance_of(assets@.take(i as int)),
                balance_in_one_year == nominal_balance_in_one_year(assets@.take(i as int)),
                real_balance == real_balance_in_one_year(assets@.take(i as int)),
            decreases assets.len() - i,
        {
            assert(assets@.take(i + 1).drop_last() =~= assets@.take(i as int));
            let asset = &assets[i];
            let value = asset.value();
            let nominal_factor = Decimal::one().checked_add(asset.nominal_growth);
            let real_factor = Decimal::one().checked_add(asset.real_growth);
            let grown = match (value, nominal_factor) {
                (Some(value), Some(factor)) => value.checked_mul(factor),
                _ => None,
            };
            let grown_real = match (value, real_factor) {
                (Some(value), Some(factor)) => value.checked_mul(factor),
                _ => None,
            };
            balance = add_results(balance, value);
            balance_in_one_year = add_results(balance_in_one_year, grown);
            real_balance = add_results(real_balance, grown_real);
            i = i + 1;
        }
        assert(assets@.take(i as int) =~= assets@);
        let nominal = growth_between(balance_in_one_year, balance);
        let after = growth_between(real_balance, balance);
        match (balance, nominal, after) {
            (Some(balance), Some(nominal), Some(after)) => Ok(
                FundDto {
                    name,
                    icon,
                    balance,
                    nominal_yearly_growth: nominal,
                    real_yearly_growth: after,
                    assets,
                    target_size,
                },
            ),
            _ => Err(ApiError::out_of_range("fund summary")),
        }
    }
}

/// A fund without holdings is worth nothing and does not grow: the added
/// epsilon keeps its growth ratio at one.
pub proof fn lemma_empty_fund_is_flat()
    ensures
        balance_of(Seq::empty()) == Some(Decimal { raw: 0 }),
        weighted_growth(nominal_balance_in_one_year(Seq::empty()), balance_of(Seq::empty()))
            == Some(Decimal { raw: 0 }),
        weighted_growth(real_balance_in_one_year(Seq::empty()), balance_of(Seq::empty())) == Some(
            Decimal { raw: 0 },
        ),
{
    assert(EPSILON * SCALE == 10_000_000_000_000);
    assert(10_000_000_000_000int / 10_000 == 1_000_000_000);
}

/// A fund of holdings that are not negative is not worth less than nothing.
pub proof fn lemma_fund_is_not_worth_less_than_nothing(assets: Seq<AssetDto>)
    requires
        forall|i: int|
            0 <= i < assets.len() ==> (#[trigger] assets[i]).units.raw >= 0
                && assets[i].unit_price.raw >= 0,
    ensures
        balance_of(assets) matches Some(balance) ==> balance.raw >= 0,
    decreases assets.len(),
{
    if assets.len() > 0 {
        let before = assets.drop_last();
        assert(forall|i: int| 0 <= i < before.len() ==> before[i] == assets[i]);
        lemma_fund_is_not_worth_less_than_nothing(before);
        let last = assets.last();
        assert(last.units.raw >= 0 && last.unit_price.raw >= 0);
        crate::decimal::lemma_product_not_negative(last.units, last.unit_price);
    }
}

/// The growth of a fund of holdings that are not negative never lacks
/// something to divide by: the epsilon keeps the divisor above zero, so the
/// growth is the quotient less one wherever the sums, the quotient and the
/// difference stay within the range of `Decimal`.
pub proof fn lemma_fund_growth_has_a_divisor(assets: Seq<AssetDto>, in_one_year: Decimal)
    requires
        forall|i: int|
            0 <= i < assets.len() ==> (#[trigger] assets[i]).units.raw >= 0
                && assets[i].unit_price.raw >= 0,
        balance_of(assets) is Some,
    ensures
        ({
            let balance = balance_of(assets)->0;
            let above = in_one_year.raw + EPSILON;
            let below = balance.raw + EPSILON;
            let times = (above * SCALE) / below;
            &&& below > 0
            &&& fits(above) && fits(below) && fits(times) && fits(times - SCALE) ==> weighted_growth(
                Some(in_one_year),
                Some(balance),
            ) == Some(Decimal { raw: (times - SCALE) as i128 })
        }),
{
    lemma_fund_is_not_worth_less_than_nothing(assets);
}

/// Where no holding grows, the worth after a year is the worth of today.
pub proof fn lemma_worth_stays_without_growth(assets: Seq<AssetDto>)
    requires
        forall|i: int| 0 <= i < assets.len() ==> (#[trigger] assets[i]).nominal_growth.raw == 0,
        nominal_balance_in_one_year(assets) is Some,
    ensures
        nominal_balance_in_one_year(assets) == balance_of(assets),
    decreases assets.len(),
{
    if assets.len() > 0 {
        let before = assets.drop_last();
        assert(forall|i: int| 0 <= i < before.len() ==> before[i] == assets[i]);
        lemma_worth_stays_without_growth(before);
        let last = assets.last();
        assert(last.nominal_growth.raw == 0);
        let worth = value_of(last)->0;
        vstd::arithmetic::div_mod::lemma_div_multiples_vanish(worth.raw as int, SCALE as int);
        assert(worth.raw * SCALE == SCALE * worth.raw) by (nonlinear_arith);
    }
}

/// A fund none of whose holdings grows does not grow: where its growth can
/// be told it is zero, whatever the fund is worth.
pub proof fn lemma_fund_without_growth_is_flat(assets: Seq<AssetDto>)
    requires
        forall|i: int| 0 <= i < assets.len() ==> (#[trigger] assets[i]).nominal_growth.raw == 0,
        weighted_growth(nominal_balance_in_one_year(assets), balance_of(assets)) is Some,
    ensures
        weighted_growth(nominal_balance_in_one_year(assets), balance_of(assets)) == Some(
            Decimal { raw: 0 },
        ),
{
    lemma_worth_stays_without_growth(assets);
    let padded = balance_of(assets)->0.raw + EPSILON;
    if padded > 0 {
        vstd::arithmetic::div_mod::lemma_div_multiples_vanish(SCALE as int, padded);
        assert(padded * SCALE == SCALE * padded) by (nonlinear_arith);
    } else {
        vstd::arithmetic::div_mod::lemma_div_multiples_vanish(SCALE as int, -padded);
        assert(-(padded * SCALE) == (-padded) * SCALE) by (nonlinear_arith);
    }
}

/// What the valuation of one account gave: the holdings it reported, or
/// what its failure says.
pub open spec fn account_outcome(outcome: Result<Vec<AssetDto>, ApiError>) -> Result<
    Seq<AssetDto>,
    Failure,
> {
    match outcome {
        Ok(assets) => Ok(assets@),
        Err(e) => Err(e.failure()),
    }
}

/// The holdings of all accounts in a row, where every account was valued, and
/// the failure of the first account that was not.
pub open spec fn joined(outcomes: Seq<Result<Vec<AssetDto>, ApiError>>) -> Result<
    Seq<AssetDto>,
    Failure,
>
    decreases outcomes.len(),
{
    if outcomes.len() == 0 {
        Ok(Seq::empty())
    } else {
        match joined(outcomes.drop_last()) {
            Err(failure) => Err(failure),
            Ok(before) => match account_outcome(outcomes.last()) {
                Ok(assets) => Ok(before + assets),
                Err(failure) => Err(failure),
            },
        }
    }
}

/// A failure among the first `n` accounts is the failure of the fund.
pub proof fn lemma_joined_failure_stays(outcomes: Seq<Result<Vec<AssetDto>, ApiError>>, n: int)
    requires
        0 <= n <= outcomes.len(),
        joined(outcomes.take(n)) is Err,
    ensures
        joined(outcomes) == joined(outcomes.take(n)),
    decreases outcomes.len() - n,
{
    if n == outcomes.len() {
        assert(outcomes.take(n) =~= outcomes);
    } else {
        assert(outcomes.take(n + 1).drop_last() =~= outcomes.take(n));
        lemma_joined_failure_stays(outcomes, n + 1);
    }
}

/// A fund is valued as a whole or not at all: it has a report exactly when
/// none of its accounts failed.
pub proof fn lemma_fund_is_all_or_nothing(outcomes: Seq<Result<Vec<AssetDto>, ApiError>>)
    ensures
        joined(outcomes) is Ok <==> forall|i: int|
            0 <= i < outcomes.len() ==> (#[trigger] outcomes[i]) is Ok,
    decreases outcomes.len(),
{
    if outcomes.len() > 0 {
        let before = outcomes.drop_last();
        lemma_fund_is_all_or_nothing(before);
        assert(forall|i: int| 0 <= i < before.len() ==> before[i] == outcomes[i]);
        if joined(outcomes) is Ok {
            assert forall|i: int| 0 <= i < outcomes.len() implies (#[trigger] outcomes[i]) is Ok by {
                if i < before.len() {
                    assert(before[i] == outcomes[i]);
                }
            }
        } else if joined(before) is Ok {
            assert(outcomes[outcomes.len() - 1] is Err);
        } else {
            let i = choose|i: int| 0 <= i < before.len() && !((#[trigger] before[i]) is Ok);
            assert(outcomes[i] is Err);
        }
    }
}

/// The holdings of a fund's accounts in a row.
fn join_accounts(outcomes: &Vec<Result<Vec<AssetDto>, ApiError>>) -> (r: Result<
    Vec<AssetDto>,
    ApiError,
>)
    ensures
        match joined(outcomes@) {
            Ok(assets) => r matches Ok(found) && found@ == assets,
            Err(failure) => r matches Err(e) && e.failure() == failure,
        },
{
    let mut collected: Vec<AssetDto> = Vec::new();
    let mut i: usize = 0;
    assert(outcomes@.take(0) =~= Seq::empty());
    while i < outcomes.len()
        invariant
            i <= outcomes.len(),
            joined(outcomes@.take(i as int)) == Ok::<Seq<AssetDto>, Failure>(collected@),
        decreases outcomes.len() - i,
    {
        assert(outcomes@.take(i + 1).drop_last() =~= outcomes@.take(i as int));
        assert(outcomes@.take(i + 1).last() == outcomes@[i as int]);
        match &outcomes[i] {
            Ok(assets) => {
                let ghost before = collected@;
                let mut j: usize = 0;
                while j < assets.len()
                    invariant
                        j <= assets.len(),
                        collected@ == before + assets@.take(j as int),
                    decreases assets.len() - j,
                {
                    collected.push(assets[j].clone());
                    assert(assets@.take(j + 1) =~= assets@.take(j as int).push(assets@[j as int]));
                    assert(collected@ =~= before + assets@.take(j + 1));
                    j = j + 1;
                }
                assert(assets@.take(j as int) =~= assets@);
            },
            Err(e) => {
                proof {
                    lemma_joined_failure_stays(outcomes@, i + 1);
                }
                return Err(e.clone());
            },
        }
        i = i + 1;
    }
    assert(outcomes@.take(i as int) =~= outcomes@);
    Ok(collected)
}

/// Why a fund has no report, if it has none: the failure of the first of its
/// accounts that failed, handed on as it is, or sums that cannot be held.
pub open spec fn fund_failure(outcomes: Seq<Result<Vec<AssetDto>, ApiError>>) -> Option<Failure> {
    match joined(outcomes) {
        Err(failure) => Some(failure),
        Ok(assets) => match (
            balance_of(assets),
            weighted_growth(nominal_balance_in_one_year(assets), balance_of(assets)),
            weighted_growth(real_balance_in_one_year(assets), balance_of(assets)),
        ) {
            (Some(_), Some(_), Some(_)) => None,
            _ => Some(out_of_range_failure("fund summary"@)),
        },
    }
}

/// Whether `report` is the report of `fund`, given what the valuation of each
/// of its accounts gave: it holds the holdings of all accounts in a row, its
/// balance is their worth together, and its growth rates are theirs weighted
/// by worth.
pub open spec fn report_described(
    fund: Fund,
    outcomes: Seq<Result<Vec<AssetDto>, ApiError>>,
    report: FundDto,
) -> bool {
    &&& joined(outcomes) matches Ok(assets)
    &&& report.name@ == fund.name@
    &&& text_of(report.icon) == text_of(fund.icon)
    &&& report.target_size == fund.target_size
    &&& report.assets@ == assets
    &&& Some(report.balance) == balance_of(assets)
    &&& Some(report.nominal_yearly_growth) == weighted_growth(
        nominal_balance_in_one_year(assets),
        balance_of(assets),
    )
    &&& Some(report.real_yearly_growth) == weighted_growth(
        real_balance_in_one_year(assets),
        balance_of(assets),
    )
}

/// The report of a fund, from what the valuation of each of its accounts
/// gave, in the order of the accounts. The failure of one account fails the
/// fund, and is handed on with its class and its message as the account gave
/// it: there is no report of a part of a fund.
pub fn fund_overview(fund: &Fund, outcomes: &Vec<Result<Vec<AssetDto>, ApiError>>) -> (r: Result<
    FundDto,
    ApiError,
>)
    ensures
        match fund_failure(outcomes@) {
            Some(failure) => r matches Err(e) && e.failure() == failure,
            None => r matches Ok(report) && report_described(*fund, outcomes@, report),
        },
{
    let assets = join_accounts(outcomes)?;
    let icon = match &fund.icon {
        Some(icon) => Some(icon.clone()),
        None => None,
    };
    FundDto::new(fund.name.clone(), icon, assets, fund.target_size)
}

/// How many funds an overview covers: each fund for which the outcomes of its
/// accounts are given.
pub open spec fn funds_covered(
    funds: Seq<Fund>,
    outcomes: Seq<Vec<Result<Vec<AssetDto>, ApiError>>>,
) -> int {
    if funds.len() <= outcomes.len() {
        funds.len() as int
    } else {
        outcomes.len() as int
    }
}

/// The reports of the funds, in order, from what the valuation of each
/// account of each fund gave. The first fund that has no report fails the
/// overview with that fund's failure, class and message, so the outcomes need
/// not go on after a failure.
pub fn get_overview(funds: &Vec<Fund>, outcomes: &Vec<Vec<Result<Vec<AssetDto>, ApiError>>>) -> (r:
    Result<Vec<FundDto>, ApiError>)
    ensures
        match r {
            Ok(reports) => {
                &&& reports@.len() == funds_covered(funds@, outcomes@)
                &&& forall|i: int|
                    0 <= i < reports@.len() ==> report_described(
                        funds@[i],
                        outcomes@[i]@,
                        #[trigger] reports@[i],
                    )
            },
            Err(e) => exists|i: int|
                {
                    &&& 0 <= i < funds_covered(funds@, outcomes@)
                    &&& #[trigger] fund_failure(outcomes@[i]@) == Some(e.failure())
                    &&& forall|j: int| 0 <= j < i ==> #[trigger] fund_failure(outcomes@[j]@) is None
                },
        },
        r is Ok <==> forall|i: int|
            0 <= i < funds_covered(funds@, outcomes@) ==> #[trigger] fund_failure(outcomes@[i]@)
                is None,
{
    let mut reports: Vec<FundDto> = Vec::new();
    let mut i: usize = 0;
    while i < funds.len() && i < outcomes.len()
        invariant
            i <= funds_covered(funds@, outcomes@),
            reports@.len() == i,
            forall|j: int| 0 <= j < i ==> #[trigger] fund_failure(outcomes@[j]@) is None,
            forall|j: int|
                0 <= j < i ==> report_described(funds@[j], outcomes@[j]@, #[trigger] reports@[j]),
        decreases funds.len() - i,
    {
        match fund_overview(&funds[i], &outcomes[i]) {
            Ok(report) => {
                reports.push(report);
            },
            Err(e) => {
                assert(fund_failure(outcomes@[i as int]@) == Some(e.failure()));
                return Err(e);
            },
        }
        i = i + 1;
    }
    Ok(reports)
}

/// What a node said when asked for the height of its chain.
pub enum BlockHeight {
    /// The number of the chain's latest block.
    Height(u64),
    /// The node could not be asked: this is why.
    Failure(String),
}

/// What a probe gave, as it is reported.
pub open spec fn height_reported(probe: Result<u64, String>) -> BlockHeight {
    match probe {
        Ok(height) => BlockHeight::Height(height),
        Err(reason) => BlockHeight::Failure(reason),
    }
}

/// What is reported for a chain: what the last of the nodes that serve it
/// gave.
pub open spec fn height_of(
    nodes: Seq<EthereumNode>,
    probes: Seq<Result<u64, String>>,
    chain_name: Seq<char>,
) -> Option<BlockHeight>
    decreases nodes.len(),
{
    if nodes.len() == 0 || probes.len() != nodes.len() {
        None
    } else if nodes.last().chain.name() == chain_name {
        Some(height_reported(probes.last()))
    } else {
        height_of(nodes.drop_last(), probes.drop_last(), chain_name)
    }
}

/// The heights of the chains by name, from what each node gave when it was
/// asked. A node that could not be asked does not fail the report: the
/// reason stands in place of the height.
pub fn get_block(nodes: &Vec<EthereumNode>, probes: &Vec<Result<u64, String>>) -> (heights: Table<
    BlockHeight,
>)
    requires
        probes@.len() == nodes@.len(),
    ensures
        heights.wf(),
        forall|chain_name: Seq<char>|
            heights.value_at(chain_name) == #[trigger] height_of(nodes@, probes@, chain_name),
{
    let mut heights: Table<BlockHeight> = Table::new();
    let mut i: usize = 0;
    assert(nodes@.take(0) =~= Seq::empty());
    assert(probes@.take(0) =~= Seq::empty());
    while i < nodes.len()
        invariant
            i <= nodes.len(),
            probes@.len() == nodes@.len(),
            heights.wf(),
            forall|chain_name: Seq<char>|
                heights.value_at(chain_name) == #[trigger] height_of(
                    nodes@.take(i as int),
                    probes@.take(i as int),
                    chain_name,
                ),
        decreases nodes.len() - i,
    {
        let ghost before = heights;
        let entry = match &probes[i] {
            Ok(height) => BlockHeight::Height(*height),
            Err(reason) => BlockHeight::Failure(reason.clone()),
        };
        let name = nodes[i].chain.to_str().to_string();
        heights.insert(name, entry);
        proof {
            assert(nodes@.take(i + 1).drop_last() =~= nodes@.take(i as int));
            assert(probes@.take(i + 1).drop_last() =~= probes@.take(i as int));
            assert(nodes@.take(i + 1).last() == nodes@[i as int]);
            assert(probes@.take(i + 1).last() == probes@[i as int]);
            assert forall|chain_name: Seq<char>|
                heights.value_at(chain_name) == #[trigger] height_of(
                    nodes@.take(i + 1),
                    probes@.take(i + 1),
                    chain_name,
                ) by {
                if chain_name != nodes@[i as int].chain.name() {
                    assert(heights.value_at(chain_name) == before.value_at(chain_name));
                    assert(before.value_at(chain_name) == height_of(
                        nodes@.take(i as int),
                        probes@.take(i as int),
                        chain_name,
                    ));
                }
            }
        }
        i = i + 1;
    }
    assert(nodes@.take(i as int) =~= nodes@);
    assert(probes@.take(i as int) =~= probes@);
    heights
}

} // verus!
