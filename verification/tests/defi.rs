use get_rich_slow::account::EthereumAccount;
use get_rich_slow::asset::Asset;
use get_rich_slow::blockchain::alpaca::{
    alpaca_asset, get_alpaca_assets, get_interest_model, AlpacaVault, InterestModel,
};
use get_rich_slow::blockchain::benqi::{
    benqi_asset, get_benqi_assets, get_benqi_avax_rewards_of_pool, BenqiMarket, BenqiRewards,
};
use get_rich_slow::blockchain::defiasset::DefiAsset;
use get_rich_slow::blockchain::{get_native_asset, holds_position};
use get_rich_slow::blockchain::venus::{
    compound, get_venus_assets, venus_asset, yearly_yield, VenusMarket,
};
use get_rich_slow::decimal::Decimal;
use get_rich_slow::error::ErrorKind;
use get_rich_slow::ethereum::{Address, EthereumChain};

fn dec(text: &str) -> Decimal {
    Decimal::parse(text).unwrap()
}

fn raw(v: i128) -> Decimal {
    Decimal::from_raw(v)
}

fn example_model() -> InterestModel {
    InterestModel::new(dec("0.5"), dec("0.8"), dec("1.0"), dec("0.1"), dec("0.3"), dec("0.6"))
}

#[test]
fn defi_asset_reports_what_it_was_made_of() {
    let asset = DefiAsset::new(
        dec("0.05"),
        "USDT".to_string(),
        dec("12.5"),
        dec("1.001"),
        "ibUSDT".to_string(),
    );
    assert_eq!(asset.get_name(), "USDT");
    assert_eq!(asset.get_description(), "ibUSDT");
    assert_eq!(asset.get_units(), dec("12.5"));
    assert_eq!(asset.get_unit_price(), dec("1.001"));
    assert_eq!(asset.get_growth().get_nominal_growth(), dec("0.05"));
    assert_eq!(asset.get_growth().get_real_growth(), Some(dec("0.05")));
    let copy = asset.clone();
    assert_eq!(copy.get_name(), "USDT");
    assert_eq!(copy.get_units(), dec("12.5"));
}

#[test]
fn alpaca_symbol_names_its_underlying_token() {
    assert_eq!(get_rich_slow::blockchain::alpaca::get_underlaying_name(&"ibUSDT".to_string()).ok(), Some("USDT".to_string()));
    assert_eq!(get_rich_slow::blockchain::alpaca::get_underlaying_name(&"ibBNB".to_string()).ok(), Some("BNB".to_string()));
    assert_eq!(get_rich_slow::blockchain::alpaca::get_underlaying_name(&"ibALPACA".to_string()).ok(), Some("ALPA".to_string()));
    assert_eq!(get_rich_slow::blockchain::alpaca::get_underlaying_name(&"xxibBUSDyy".to_string()).ok(), Some("BUSD".to_string()));
}

#[test]
fn alpaca_symbol_without_the_pattern_is_a_parse_error() {
    let e = get_rich_slow::blockchain::alpaca::get_underlaying_name(&"USDT".to_string()).err().unwrap();
    assert_eq!(e.get_kind(), ErrorKind::Parse);
    assert_eq!(e.get_message(), "No valid Alpaca ibToken: USDT");
    assert!(get_rich_slow::blockchain::alpaca::get_underlaying_name(&"ibUS".to_string()).is_err());
    assert!(get_rich_slow::blockchain::alpaca::get_underlaying_name(&"ibusdt".to_string()).is_err());
    assert!(get_rich_slow::blockchain::alpaca::get_underlaying_name(&"".to_string()).is_err());
}

#[test]
fn venus_symbol_names_its_underlying_token() {
    assert_eq!(get_rich_slow::blockchain::venus::get_underlaying_name(&"vBTC".to_string()).ok(), Some("BTC".to_string()));
    assert_eq!(get_rich_slow::blockchain::venus::get_underlaying_name(&"xUSDT".to_string()).ok(), Some("USDT".to_string()));
    let e = get_rich_slow::blockchain::venus::get_underlaying_name(&"BTC".to_string()).err().unwrap();
    assert_eq!(e.get_kind(), ErrorKind::Parse);
    assert_eq!(e.get_message(), "No valid Venus Token: BTC");
}

#[test]
fn benqi_symbol_names_its_underlying_token() {
    assert_eq!(get_rich_slow::blockchain::benqi::get_underlaying_name(&"qiAVAX".to_string()).ok(), Some("AVAX".to_string()));
    assert_eq!(get_rich_slow::blockchain::benqi::get_underlaying_name(&"qiDAI".to_string()).ok(), Some("DAI".to_string()));
    let e = get_rich_slow::blockchain::benqi::get_underlaying_name(&"AVAX".to_string()).err().unwrap();
    assert_eq!(e.get_kind(), ErrorKind::Parse);
    assert_eq!(e.get_message(), "No valid Benqi Token: AVAX");
}

#[test]
fn borrow_rate_interpolates_within_the_second_segment() {
    let rate = example_model().get_borrow_rate_from_usage(dec("0.65")).ok().unwrap();
    assert_eq!(rate, dec("0.2"));
}

#[test]
fn borrow_rate_on_each_segment() {
    let model = example_model();
    assert_eq!(model.get_borrow_rate_from_usage(dec("0")).ok(), Some(dec("0")));
    assert_eq!(model.get_borrow_rate_from_usage(dec("0.25")).ok(), Some(dec("0.05")));
    assert_eq!(model.get_borrow_rate_from_usage(dec("0.5")).ok(), Some(dec("0.1")));
    assert_eq!(model.get_borrow_rate_from_usage(dec("0.8")).ok(), Some(dec("0.3")));
    assert_eq!(model.get_borrow_rate_from_usage(dec("0.9")).ok(), Some(dec("0.45")));
    assert_eq!(model.get_borrow_rate_from_usage(dec("1")).ok(), Some(dec("0.6")));
}

#[test]
fn usage_above_one_is_an_invariant_violation() {
    let e = example_model().get_borrow_rate_from_usage(dec("1.01")).err().unwrap();
    assert_eq!(e.get_kind(), ErrorKind::InvariantViolation);
}

#[test]
fn usage_above_the_third_ceiling_is_an_invariant_violation() {
    let model =
        InterestModel::new(dec("0.5"), dec("0.8"), dec("0.9"), dec("0.1"), dec("0.3"), dec("0.6"));
    let e = model.get_borrow_rate_from_usage(dec("0.95")).err().unwrap();
    assert_eq!(e.get_kind(), ErrorKind::InvariantViolation);
    assert_eq!(e.get_message(), "Alpaca interest model with more than three slopes");
}

#[test]
fn usage_on_a_segment_without_width_is_an_invariant_violation() {
    let model =
        InterestModel::new(dec("0.5"), dec("0.8"), dec("0.8"), dec("0.1"), dec("0.3"), dec("0.6"));
    let e = model.get_borrow_rate_from_usage(dec("0.8")).err().unwrap();
    assert_eq!(e.get_kind(), ErrorKind::InvariantViolation);
}

#[test]
fn interest_model_from_readings() {
    let model = get_interest_model(
        60_000_000_000_000_000_000,
        90_000_000_000_000_000_000,
        100_000_000_000_000_000_000,
        200_000_000_000_000_000,
        200_000_000_000_000_000,
        1_500_000_000_000_000_000,
    );
    assert_eq!(model.ceil_slope_1, dec("0.6"));
    assert_eq!(model.ceil_slope_2, dec("0.9"));
    assert_eq!(model.ceil_slope_3, dec("1"));
    assert_eq!(model.max_interest_slope_1, dec("0.2"));
    assert_eq!(model.max_interest_slope_2, dec("0.2"));
    assert_eq!(model.max_interest_slope_3, dec("1.5"));
    let cut = get_interest_model(69_999_999_999_999_999, 0, 0, 199_999_999_999_999, 0, 0);
    assert_eq!(cut.ceil_slope_1, dec("0.0006"));
    assert_eq!(cut.max_interest_slope_1, dec("0.0001"));
}

fn vault(balance: u128, symbol: &str) -> AlpacaVault {
    AlpacaVault {
        balance,
        decimals: 18,
        total_token: 1_000_000_000_000_000_000_000,
        total_supply: 900_000_000_000_000_000_000,
        symbol: symbol.to_string(),
        vault_debt: 700_000_000_000_000_000_000,
        interest_model: get_interest_model(
            60_000_000_000_000_000_000,
            90_000_000_000_000_000_000,
            100_000_000_000_000_000_000,
            200_000_000_000_000_000,
            200_000_000_000_000_000,
            1_500_000_000_000_000_000,
        ),
        price: dec("1.0005"),
    }
}

#[test]
fn alpaca_position_from_readings() {
    let asset = alpaca_asset(&vault(5_000_000_000_000_000_000, "ibBUSD")).ok().unwrap();
    assert_eq!(asset.get_name(), "BUSD");
    assert_eq!(asset.get_description(), "ibBUSD");
    assert_eq!(asset.get_units(), raw(5_555_555_555));
    assert_eq!(asset.get_unit_price(), dec("1.0005"));
    assert_eq!(asset.get_growth().get_nominal_growth(), raw(113_400_000));
}

#[test]
fn alpaca_vaults_without_a_balance_are_skipped() {
    let vaults = vec![
        vault(0, "no symbol at all"),
        vault(5_000_000_000_000_000_000, "ibBUSD"),
        vault(0, "ibUSDT"),
        vault(1_000_000_000_000_000_000, "ibUSDT"),
    ];
    let assets = get_alpaca_assets(&vaults).ok().unwrap();
    assert_eq!(assets.len(), 2);
    assert_eq!(assets[0].get_name(), "BUSD");
    assert_eq!(assets[1].get_name(), "USDT");
    assert_eq!(assets[1].get_units(), raw(1_111_111_111));
    assert_eq!(get_alpaca_assets(&Vec::new()).ok().unwrap().len(), 0);
}

#[test]
fn alpaca_vault_that_cannot_be_valued_fails_the_list() {
    let vaults = vec![vault(5_000_000_000_000_000_000, "ibBUSD"), vault(1, "BUSD")];
    let e = get_alpaca_assets(&vaults).err().unwrap();
    assert_eq!(e.get_kind(), ErrorKind::Parse);
    let mut overdrawn = vault(1, "ibBUSD");
    overdrawn.vault_debt = 1_010_000_000_000_000_000_000;
    let e = get_alpaca_assets(&vec![overdrawn]).err().unwrap();
    assert_eq!(e.get_kind(), ErrorKind::InvariantViolation);
    let mut empty = vault(1, "ibBUSD");
    empty.total_token = 0;
    let e = alpaca_asset(&empty).err().unwrap();
    assert_eq!(e.get_kind(), ErrorKind::InvariantViolation);
}

#[test]
fn compounding_multiplies_step_by_step() {
    assert_eq!(compound(dec("1.1"), 0), Some(dec("1")));
    assert_eq!(compound(dec("1.1"), 1), Some(dec("1.1")));
    assert_eq!(compound(dec("1.1"), 2), Some(dec("1.21")));
    assert_eq!(compound(dec("2"), 10), Some(dec("1024")));
    assert_eq!(compound(dec("1000000"), 365), None);
}

#[test]
fn venus_yearly_yield_compounds_daily() {
    assert_eq!(yearly_yield(0), Some(raw(0)));
    assert_eq!(yearly_yield(4_600_000_000), Some(raw(49_539_831)));
    assert_eq!(yearly_yield(10_000_000_000), Some(raw(110_826_901)));
    assert_eq!(yearly_yield(u128::MAX), None);
}

fn market(balance: u128, symbol: &str) -> VenusMarket {
    VenusMarket {
        balance,
        decimals: 8,
        exchange_rate: 201_234_567_890_123_456_789_012_345,
        symbol: symbol.to_string(),
        supply_rate_per_block: 4_600_000_000,
        price: dec("42000.5"),
    }
}

#[test]
fn venus_position_from_readings() {
    let asset = venus_asset(&market(123_456_789_012, "vBTC")).ok().unwrap();
    assert_eq!(asset.get_name(), "BTC");
    assert_eq!(asset.get_description(), "vBTC");
    assert_eq!(asset.get_units(), raw(24_843_772_615));
    assert_eq!(asset.get_unit_price(), dec("42000.5"));
    assert_eq!(asset.get_growth().get_nominal_growth(), raw(49_539_831));
}

#[test]
fn venus_markets_in_order_without_the_empty_ones() {
    let markets =
        vec![market(0, "vETH"), market(123_456_789_012, "vBTC"), market(100_000_000, "vXVS")];
    let assets = get_venus_assets(&markets).ok().unwrap();
    assert_eq!(assets.len(), 2);
    assert_eq!(assets[0].get_name(), "BTC");
    assert_eq!(assets[1].get_name(), "XVS");
    let bad = vec![market(123_456_789_012, "vBTC"), market(1, "BTC")];
    assert_eq!(get_venus_assets(&bad).err().unwrap().get_kind(), ErrorKind::Parse);
    let mut steep = market(1, "vBTC");
    steep.supply_rate_per_block = u128::MAX;
    assert_eq!(
        get_venus_assets(&vec![steep]).err().unwrap().get_kind(),
        ErrorKind::InvariantViolation
    );
}

fn benqi_market(balance: u128, symbol: &str) -> BenqiMarket {
    BenqiMarket {
        balance,
        decimals: 8,
        exchange_rate: 200_000_000_000_000_000_000_000_000,
        supply_rate_per_timestamp: 1_000_000_000,
        symbol: symbol.to_string(),
        price: dec("25"),
        total_supply: 10_000_000_000_000_000,
        reward_speed_benqi: 500_000_000_000_000_000,
        reward_speed_avax: 10_000_000_000_000_000,
    }
}

fn benqi_rewards(outstanding_qi: u128, outstanding_avax: u128) -> BenqiRewards {
    BenqiRewards {
        benqi_price: dec("0.02"),
        avax_price: dec("15"),
        outstanding_qi,
        outstanding_avax,
    }
}

#[test]
fn benqi_reward_speeds_in_whole_tokens() {
    let (qi, avax) = get_benqi_avax_rewards_of_pool(500_000_000_000_000_000, 10_000_000_000_000_000);
    assert_eq!(qi, dec("0.5"));
    assert_eq!(avax, dec("0.01"));
    let (most, none) = get_benqi_avax_rewards_of_pool(u128::MAX, 0);
    assert_eq!(most, raw(340_282_366_920_938_463_463_374_607_431));
    assert_eq!(none, raw(0));
}

#[test]
fn benqi_position_with_its_reward_rate_times_one_hundred() {
    let asset = benqi_asset(&benqi_market(20_000_000_000, "qiAVAX"), dec("0.02"), dec("15"))
        .ok()
        .unwrap();
    assert_eq!(asset.get_name(), "AVAX");
    assert_eq!(asset.get_description(), "qiAVAX");
    assert_eq!(asset.get_units(), raw(4_000_000_000));
    assert_eq!(asset.get_unit_price(), dec("25"));
    assert_eq!(asset.get_growth().get_nominal_growth(), raw(31_536_000 + 100_915_200));
}

#[test]
fn benqi_assets_end_with_the_unclaimed_rewards() {
    let markets = vec![benqi_market(0, "qiDAI"), benqi_market(20_000_000_000, "qiAVAX")];
    let assets =
        get_benqi_assets(&markets, &benqi_rewards(1_500_000_000_000_000_000, 1)).ok().unwrap();
    assert_eq!(assets.len(), 3);
    assert_eq!(assets[0].get_name(), "AVAX");
    assert_eq!(assets[1].get_name(), "QI");
    assert_eq!(assets[1].get_description(), "QI pending on Benqi");
    assert_eq!(assets[1].get_units(), dec("1.5"));
    assert_eq!(assets[1].get_unit_price(), dec("0.02"));
    assert_eq!(assets[1].get_growth().get_nominal_growth(), raw(0));
    assert_eq!(assets[2].get_name(), "AVAX");
    assert_eq!(assets[2].get_description(), "AVAX pending on Benqi");
    assert_eq!(assets[2].get_units(), raw(0));
    assert_eq!(assets[2].get_unit_price(), dec("15"));
}

#[test]
fn benqi_without_positions_or_rewards_is_empty() {
    let assets = get_benqi_assets(&vec![benqi_market(0, "qiDAI")], &benqi_rewards(0, 0))
        .ok()
        .unwrap();
    assert_eq!(assets.len(), 0);
    let only_avax = get_benqi_assets(&Vec::new(), &benqi_rewards(0, 2_000_000_000_000_000_000))
        .ok()
        .unwrap();
    assert_eq!(only_avax.len(), 1);
    assert_eq!(only_avax[0].get_name(), "AVAX");
    assert_eq!(only_avax[0].get_units(), dec("2"));
}

#[test]
fn benqi_market_that_cannot_be_valued_fails_the_list() {
    let bad = vec![benqi_market(1, "AVAX")];
    let e = get_benqi_assets(&bad, &benqi_rewards(1, 1)).err().unwrap();
    assert_eq!(e.get_kind(), ErrorKind::Parse);
    let mut worthless = benqi_market(1, "qiAVAX");
    worthless.total_supply = 0;
    let e = get_benqi_assets(&vec![worthless], &benqi_rewards(1, 1)).err().unwrap();
    assert_eq!(e.get_kind(), ErrorKind::InvariantViolation);
}

fn wallet(chain: EthereumChain) -> EthereumAccount {
    EthereumAccount { name: "wallet".to_string(), chain, wallet_address: Address { bytes: [7; 20] } }
}

#[test]
fn native_coin_of_a_wallet() {
    let assets = get_native_asset(
        &wallet(EthereumChain::BinanceSmartChain),
        2_500_000_000_000_000_000,
        dec("300"),
    );
    assert_eq!(assets.len(), 1);
    assert_eq!(assets[0].get_name(), "BNB");
    assert_eq!(assets[0].get_description(), "BSC");
    assert_eq!(assets[0].get_units(), dec("2.5"));
    assert_eq!(assets[0].get_unit_price(), dec("300"));
    assert_eq!(assets[0].get_growth().get_nominal_growth(), raw(0));
    let most = get_native_asset(&wallet(EthereumChain::AvalancheC), u128::MAX, dec("1"));
    assert_eq!(most[0].get_name(), "AVAX");
    assert_eq!(most[0].get_units(), raw(340_282_366_920_938_463_463_374_607_431));
}

#[test]
fn empty_wallet_has_no_native_asset() {
    assert_eq!(get_native_asset(&wallet(EthereumChain::Moonbeam), 0, dec("300")).len(), 0);
}

#[test]
fn only_a_balance_above_nothing_is_a_position() {
    assert!(!holds_position(0));
    assert!(holds_position(1));
    assert!(holds_position(u128::MAX));
}

#[test]
fn failures_of_the_lists_say_what_went_wrong() {
    let vaults = vec![vault(5_000_000_000_000_000_000, "ibBUSD"), vault(1, "BUSD")];
    let e = get_alpaca_assets(&vaults).err().unwrap();
    assert_eq!(e.get_message(), "No valid Alpaca ibToken: BUSD");
    let mut overdrawn = vault(1, "ibBUSD");
    overdrawn.vault_debt = 1_010_000_000_000_000_000_000;
    let e = get_alpaca_assets(&vec![overdrawn]).err().unwrap();
    assert_eq!(e.get_message(), "Alpaca vault with a usage above one");
    let mut empty = vault(1, "ibBUSD");
    empty.total_token = 0;
    assert_eq!(alpaca_asset(&empty).err().unwrap().get_message(), "Value out of range: Alpaca usage");
    let mut unbacked = vault(1, "ibBUSD");
    unbacked.total_supply = 0;
    assert_eq!(
        alpaca_asset(&unbacked).err().unwrap().get_message(),
        "Value out of range: Alpaca position"
    );
    let bad = vec![market(123_456_789_012, "vBTC"), market(1, "BTC")];
    assert_eq!(get_venus_assets(&bad).err().unwrap().get_message(), "No valid Venus Token: BTC");
    let mut steep = market(1, "vBTC");
    steep.supply_rate_per_block = u128::MAX;
    assert_eq!(
        get_venus_assets(&vec![steep]).err().unwrap().get_message(),
        "Value out of range: Venus yield"
    );
    let e = get_benqi_assets(&vec![benqi_market(1, "AVAX")], &benqi_rewards(1, 1)).err().unwrap();
    assert_eq!(e.get_message(), "No valid Benqi Token: AVAX");
    let mut worthless = benqi_market(1, "qiAVAX");
    worthless.total_supply = 0;
    let e = get_benqi_assets(&vec![worthless], &benqi_rewards(1, 1)).err().unwrap();
    assert_eq!(e.get_message(), "Value out of range: Benqi position");
    let e = example_model().get_borrow_rate_from_usage(dec("1.01")).err().unwrap();
    assert_eq!(e.get_message(), "Alpaca vault with a usage above one");
}
