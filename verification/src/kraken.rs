use vstd::prelude::*;
use vstd::string::StrSliceExecFns;
use vstd::string::StringExecFns;
use crate::asset::{models, Asset, AssetModel, GenericAsset};
use crate::blockchain::underlying_from_capture;
use crate::decimal::{unit, Decimal};
use crate::error::{out_of_range_failure, parse_failure, ApiError, ErrorKind, Failure};
use crate::gather::{gathered, lemma_gathered_failure_stays, lemma_gathered_step};
use crate::parse::decimal_text;
use crate::table::Table;
use crate::text::{capture_named, named_capture, str_eq};

verus! {

/// The yearly yield of staked Polkadot: 0.12.
pub const STAKED_DOT_APY: i128 = 120_000_000;

/// The yearly yield of staked Ether: 0.03.
pub const STAKED_ETH_APY: i128 = 30_000_000;

/// The expression that a Kraken balance's symbol must hold: two to five
/// capital letters or digits, which name the asset, and optionally a mark
/// of how it is held.
pub open spec fn symbol_pattern() -> Seq<char> {
    "(?P<trading_symbol>[A-Z0-9]{2,5})(\\.(S|P))?"@
}

/// The expression of a pair that is quoted against `ZUSD`.
pub open spec fn x_pair_pattern() -> Seq<char> {
    "(?P<trading_symbol>[A-Z]{2,4})ZUSD"@
}

/// The expression of a pair that is quoted against `USD`.
pub open spec fn pair_pattern() -> Seq<char> {
    "(?P<trading_symbol>[A-Z]{2,4})USD"@
}

/// The name of the group that holds the asset.
pub open spec fn symbol_group() -> Seq<char> {
    "trading_symbol"@
}

/// The asset that a Kraken balance's symbol names.
pub fn trading_symbol_lookup(symbol: &str) -> (r: Result<String, ApiError>)
    ensures
        match named_capture(symbol_pattern(), symbol_group(), symbol@) {
            Some(name) => r matches Ok(found) && found@ == name,
            None => r matches Err(e) && e.kind() == ErrorKind::Parse && e.message()
                == "No valid Kraken Symbol: "@ + symbol@,
        },
{
    let capture = capture_named(
        "(?P<trading_symbol>[A-Z0-9]{2,5})(\\.(S|P))?",
        "trading_symbol",
        symbol,
    );
    underlying_from_capture(capture, "No valid Kraken Symbol: ", symbol)
}

/// Whether a price is asked for an asset: not for the dollar, which is worth
/// one, nor for the euro and for staked Ether, which are asked for anyway.
pub open spec fn is_quoted(symbol: Seq<char>) -> bool {
    symbol != "ZUSD"@ && symbol != "ETH2"@ && symbol != "ZEUR"@
}

/// The pair under which an asset is quoted: assets whose symbol begins with
/// `X`, but for `XTZ`, are quoted against `ZUSD`, the others against `USD`.
pub open spec fn pair_of(symbol: Seq<char>) -> Seq<char> {
    if symbol.len() > 0 && symbol[0] == 'X' && symbol != "XTZ"@ {
        symbol + "ZUSD"@
    } else {
        symbol + "USD"@
    }
}

/// The pairs of the assets that are asked for, in order, with commas between.
pub open spec fn joined_pairs(symbols: Seq<String>) -> Seq<char>
    decreases symbols.len(),
{
    if symbols.len() == 0 {
        Seq::empty()
    } else {
        let before = joined_pairs(symbols.drop_last());
        if !is_quoted(symbols.last()@) {
            before
        } else if before.len() == 0 {
            pair_of(symbols.last()@)
        } else {
            before + ","@ + pair_of(symbols.last()@)
        }
    }
}

/// The list of pairs to ask the ticker for: those of the given assets, then
/// staked Ether against Ether, Ether and the euro.
pub open spec fn tickers_for(symbols: Seq<String>) -> Seq<char> {
    joined_pairs(symbols) + ",ETH2.SETH,XETHZUSD,ZEURZUSD"@
}

/// The pair under which an asset is quoted.
fn pair_name(symbol: &String) -> (pair: String)
    ensures
        pair@ == pair_of(symbol@),
{
    let text = symbol.as_str();
    let mut pair = symbol.clone();
    if text.unicode_len() > 0 && text.get_char(0) == 'X' && !str_eq(text, "XTZ") {
        pair.append("ZUSD");
    } else {
        pair.append("USD");
    }
    pair
}

/// The list of pairs to ask the ticker for.
pub fn ticker_request(symbols: &Vec<String>) -> (tickers: String)
    ensures
        tickers@ == tickers_for(symbols@),
{
    let mut tickers = String::new();
    let mut i: usize = 0;
    assert(symbols@.take(0) =~= Seq::empty());
    while i < symbols.len()
        invariant
            i <= symbols.len(),
            tickers@ == joined_pairs(symbols@.take(i as int)),
        decreases symbols.len() - i,
    {
        assert(symbols@.take(i + 1).drop_last() =~= symbols@.take(i as int));
        assert(symbols@.take(i + 1).last() == symbols@[i as int]);
        let symbol = &symbols[i];
        let text = symbol.as_str();
        if !str_eq(text, "ZUSD") && !str_eq(text, "ETH2") && !str_eq(text, "ZEUR") {
            let pair = pair_name(symbol);
            if tickers.as_str().unicode_len() > 0 {
                tickers.append(",");
            } else {
                assert(tickers@ + pair@ =~= pair@);
            }
            tickers.append(pair.as_str());
        }
        i = i + 1;
    }
    assert(symbols@.take(i as int) =~= symbols@);
    tickers.append(",ETH2.SETH,XETHZUSD,ZEURZUSD");
    tickers
}

/// The yearly yield that Kraken pays on a balance: staked Polkadot and staked
/// Ether earn, nothing else does.
pub open spec fn apy_of(symbol: Seq<char>) -> Decimal {
    if symbol == "DOT.S"@ {
        Decimal { raw: STAKED_DOT_APY }
    } else if symbol == "ETH2.S"@ {
        Decimal { raw: STAKED_ETH_APY }
    } else {
        Decimal { raw: 0 }
    }
}

/// The yearly yield that Kraken pays on a balance.
pub fn get_apy(symbol: &str) -> (apy: Decimal)
    ensures
        apy == apy_of(symbol@),
{
    if str_eq(symbol, "DOT.S") {
        Decimal { raw: STAKED_DOT_APY }
    } else if str_eq(symbol, "ETH2.S") {
        Decimal { raw: STAKED_ETH_APY }
    } else {
        Decimal { raw: 0 }
    }
}

/// What has been read of the ticker's quotes: the prices by asset, and the
/// price of staked Ether in Ether where it was among them.
pub struct PriceScan {
    pub prices: Map<Seq<char>, Decimal>,
    pub eth2eth: Option<Decimal>,
}

/// The asset that a quoted pair prices: what stands before `ZUSD`, and where
/// the pair does not end so, what stands before `USD`.
pub open spec fn asset_of_pair(pair: Seq<char>) -> Option<Seq<char>> {
    match named_capture(x_pair_pattern(), symbol_group(), pair) {
        Some(asset) => Some(asset),
        None => named_capture(pair_pattern(), symbol_group(), pair),
    }
}

/// The failure of a symbol that names no asset.
pub open spec fn no_symbol(symbol: Seq<char>) -> Failure {
    Failure { kind: ErrorKind::Parse, message: "No valid Kraken Symbol: "@ + symbol }
}

/// The failure of a pair that prices no asset.
pub open spec fn no_pair_symbol(pair: Seq<char>) -> Failure {
    Failure { kind: ErrorKind::Parse, message: "No valid Kraken Pair Symbol: "@ + pair }
}

/// The failure of quotes without the price of staked Ether in Ether.
pub open spec fn no_staked_ether_price() -> Failure {
    Failure { kind: ErrorKind::InvariantViolation, message: "Could not look up ETH2 price!"@ }
}

/// The failure of quotes without the price of Ether.
pub open spec fn no_ether_price() -> Failure {
    Failure { kind: ErrorKind::InvariantViolation, message: "Could not look up ETH price!"@ }
}

/// One more quote: its price must be a number; the quote of staked Ether is
/// kept apart, any other is entered under the asset of its pair.
pub open spec fn scan_step(scan: PriceScan, pair: Seq<char>, price: Seq<char>) -> Result<
    PriceScan,
    Failure,
> {
    match decimal_text(price) {
        None => Err(parse_failure(price)),
        Some(price) => if pair == "ETH2.SETH"@ {
            Ok(PriceScan { prices: scan.prices, eth2eth: Some(price) })
        } else {
            match asset_of_pair(pair) {
                None => Err(no_pair_symbol(pair)),
                Some(asset) => Ok(
                    PriceScan { prices: scan.prices.insert(asset, price), eth2eth: scan.eth2eth },
                ),
            }
        },
    }
}

/// All quotes read in order, beginning with the dollar at one.
pub open spec fn scanned(quotes: Seq<(String, String)>) -> Result<PriceScan, Failure>
    decreases quotes.len(),
{
    if quotes.len() == 0 {
        Ok(PriceScan { prices: Map::empty().insert("ZUSD"@, unit()), eth2eth: None })
    } else {
        match scanned(quotes.drop_last()) {
            Err(failure) => Err(failure),
            Ok(scan) => scan_step(scan, quotes.last().0@, quotes.last().1@),
        }
    }
}

/// The prices in USD that the ticker's quotes give, by asset. Staked Ether
/// is priced by its quote in Ether times the price of Ether; the answer is
/// of no use without those two.
pub open spec fn price_table(quotes: Seq<(String, String)>) -> Result<
    Map<Seq<char>, Decimal>,
    Failure,
> {
    match scanned(quotes) {
        Err(failure) => Err(failure),
        Ok(scan) => match scan.eth2eth {
            None => Err(no_staked_ether_price()),
            Some(eth2eth) => if !scan.prices.contains_key("XETH"@) {
                Err(no_ether_price())
            } else {
                match eth2eth.product(scan.prices["XETH"@]) {
                    None => Err(out_of_range_failure("ETH2 price"@)),
                    Some(price) => Ok(scan.prices.insert("ETH2"@, price)),
                }
            },
        },
    }
}

/// Whether a table holds exactly the given prices.
pub open spec fn holds_prices(table: Table<Decimal>, prices: Map<Seq<char>, Decimal>) -> bool {
    forall|asset: Seq<char>|
        #[trigger] table.value_at(asset) == (if prices.contains_key(asset) {
            Some(prices[asset])
        } else {
            None
        })
}

/// A failed scan stays failed when more quotes follow.
proof fn lemma_scan_failure_stays(quotes: Seq<(String, String)>, n: int)
    requires
        0 <= n <= quotes.len(),
        scanned(quotes.take(n)) is Err,
    ensures
        scanned(quotes) == scanned(quotes.take(n)),
    decreases quotes.len() - n,
{
    if n == quotes.len() {
        assert(quotes.take(n) =~= quotes);
    } else {
        assert(quotes.take(n + 1).drop_last() =~= quotes.take(n));
        lemma_scan_failure_stays(quotes, n + 1);
    }
}

/// The asset that a quoted pair prices.
fn pair_asset(pair: &str) -> (r: Result<String, ApiError>)
    ensures
        match asset_of_pair(pair@) {
            Some(asset) => r matches Ok(found) && found@ == asset,
            None => r matches Err(e) && e.failure() == no_pair_symbol(pair@),
        },
{
    match capture_named("(?P<trading_symbol>[A-Z]{2,4})ZUSD", "trading_symbol", pair) {
        Some(asset) => Ok(asset),
        None => {
            let capture = capture_named("(?P<trading_symbol>[A-Z]{2,4})USD", "trading_symbol", pair);
            underlying_from_capture(capture, "No valid Kraken Pair Symbol: ", pair)
        },
    }
}

/// The prices in USD by asset, from the ticker's quotes: for each pair its
/// last price as the ticker writes it.
pub fn kraken_price_hashmap(quotes: &Vec<(String, String)>) -> (r: Result<Table<Decimal>, ApiError>)
    ensures
        match price_table(quotes@) {
            Ok(prices) => r matches Ok(table) && table.wf() && holds_prices(table, prices),
            Err(failure) => r matches Err(e) && e.failure() == failure,
        },
{
    let mut result: Table<Decimal> = Table::new();
    result.insert(String::from_str("ZUSD"), Decimal::one());
    let mut eth2eth: Option<Decimal> = None;
    let mut i: usize = 0;
    let ghost mut prices: Map<Seq<char>, Decimal> = Map::empty().insert("ZUSD"@, unit());
    assert(quotes@.take(0) =~= Seq::empty());
    while i < quotes.len()
        invariant
            i <= quotes.len(),
            result.wf(),
            holds_prices(result, prices),
            scanned(quotes@.take(i as int)) == Ok::<PriceScan, Failure>(
                PriceScan { prices, eth2eth },
            ),
        decreases quotes.len() - i,
    {
        proof {
            assert(quotes@.take(i + 1).drop_last() =~= quotes@.take(i as int));
            assert(quotes@.take(i + 1).last() == quotes@[i as int]);
        }
        let pair = quotes[i].0.as_str();
        let price = match Decimal::parse(quotes[i].1.as_str()) {
            Some(price) => price,
            None => {
                proof {
                    lemma_scan_failure_stays(quotes@, i + 1);
                }
                return Err(ApiError::from_parse_failure(quotes[i].1.as_str()));
            },
        };
        if str_eq(pair, "ETH2.SETH") {
            eth2eth = Some(price);
        } else {
            match pair_asset(pair) {
                Ok(asset) => {
                    let ghost before = result;
                    proof {
                        prices = prices.insert(asset@, price);
                    }
                    result.insert(asset, price);
                },
                Err(e) => {
                    proof {
                        lemma_scan_failure_stays(quotes@, i + 1);
                    }
                    return Err(e);
                },
            }
        }
        i = i + 1;
    }
    assert(quotes@.take(i as int) =~= quotes@);
    let eth2eth = match eth2eth {
        Some(eth2eth) => eth2eth,
        None => {
            return Err(
                ApiError::with_kind(
                    ErrorKind::InvariantViolation,
                    String::from_str("Could not look up ETH2 price!"),
                ),
            );
        },
    };
    let ether = match result.get("XETH") {
        Some(ether) => *ether,
        None => {
            return Err(
                ApiError::with_kind(
                    ErrorKind::InvariantViolation,
                    String::from_str("Could not look up ETH price!"),
                ),
            );
        },
    };
    match eth2eth.checked_mul(ether) {
        Some(price) => {
            result.insert(String::from_str("ETH2"), price);
            Ok(result)
        },
        None => Err(ApiError::out_of_range("ETH2 price")),
    }
}

/// The smallest balance that counts as a holding is above this: a billionth.
pub const DUST: i128 = 1;

/// What one balance adds to the account's assets: nothing where it is dust,
/// and else a holding of the asset that its symbol names, priced as the table
/// says and at nothing where the table has no price for it.
pub open spec fn kraken_outcome(balance: (String, String), prices: Table<Decimal>) -> Option<
    Result<AssetModel, Failure>,
> {
    match decimal_text(balance.1@) {
        None => Some(Err(parse_failure(balance.1@))),
        Some(units) => if units.raw > DUST {
            match named_capture(symbol_pattern(), symbol_group(), balance.0@) {
                None => Some(Err(no_symbol(balance.0@))),
                Some(asset) => Some(
                    Ok(
                        AssetModel {
                            name: asset,
                            description: balance.0@ + " on Kraken"@,
                            units,
                            unit_price: match prices.value_at(asset) {
                                Some(price) => price,
                                None => Decimal { raw: 0 },
                            },
                            nominal_growth: apy_of(balance.0@),
                        },
                    ),
                ),
            }
        } else {
            None
        },
    }
}

/// The holding that one balance makes, if it makes one.
fn kraken_asset(balance: &(String, String), prices: &Table<Decimal>) -> (r: Option<
    Result<GenericAsset, ApiError>,
>)
    requires
        prices.wf(),
    ensures
        match kraken_outcome(*balance, *prices) {
            None => r is None,
            Some(Ok(model)) => r matches Some(Ok(asset)) && asset.model() == model,
            Some(Err(failure)) => r matches Some(Err(e)) && e.failure() == failure,
        },
{
    let units = match Decimal::parse(balance.1.as_str()) {
        Some(units) => units,
        None => {
            return Some(Err(ApiError::from_parse_failure(balance.1.as_str())));
        },
    };
    if units.raw <= DUST {
        return None;
    }
    let trading_symbol = match trading_symbol_lookup(balance.0.as_str()) {
        Ok(trading_symbol) => trading_symbol,
        Err(e) => {
            return Some(Err(e));
        },
    };
    let price = match prices.get(trading_symbol.as_str()) {
        Some(price) => *price,
        None => Decimal::zero(),
    };
    let mut description = balance.0.clone();
    description.append(" on Kraken");
    Some(
        Ok(
            GenericAsset::new(
                get_apy(balance.0.as_str()),
                trading_symbol,
                description,
                units,
                price,
            ),
        ),
    )
}

/// The assets whose prices the ticker is to be asked for: the asset of each
/// balance that is no dust, in the order of the balances.
pub open spec fn symbol_outcome(balance: (String, String)) -> Option<Result<Seq<char>, Failure>> {
    match decimal_text(balance.1@) {
        None => Some(Err(parse_failure(balance.1@))),
        Some(units) => if units.raw > DUST {
            match named_capture(symbol_pattern(), symbol_group(), balance.0@) {
                None => Some(Err(no_symbol(balance.0@))),
                Some(asset) => Some(Ok(asset)),
            }
        } else {
            None
        },
    }
}

/// What a list of texts holds.
pub open spec fn texts_of(texts: Seq<String>) -> Seq<Seq<char>> {
    Seq::new(texts.len(), |i: int| texts[i]@)
}

/// The assets that the account holds, for the ticker request, from the
/// account's balances: for each symbol the amount as Kraken writes it.
pub fn held_symbols(balances: &Vec<(String, String)>) -> (r: Result<Vec<String>, ApiError>)
    ensures
        match gathered(balances@.map_values(|b: (String, String)| symbol_outcome(b))) {
            Ok(symbols) => r matches Ok(found) && texts_of(found@) == symbols,
            Err(failure) => r matches Err(e) && e.failure() == failure,
        },
{
    let ghost outcomes = balances@.map_values(|b: (String, String)| symbol_outcome(b));
    let mut res: Vec<String> = Vec::new();
    let mut i: usize = 0;
    proof {
        assert(outcomes.take(0) =~= Seq::empty());
        assert(texts_of(res@) =~= Seq::empty());
    }
    while i < balances.len()
        invariant
            i <= balances.len(),
            outcomes == balances@.map_values(|b: (String, String)| symbol_outcome(b)),
            gathered(outcomes.take(i as int)) == Ok::<Seq<Seq<char>>, Failure>(texts_of(res@)),
        decreases balances.len() - i,
    {
        proof {
            lemma_gathered_step(outcomes, i as int);
        }
        let ghost before = res@;
        match Decimal::parse(balances[i].1.as_str()) {
            None => {
                proof {
                    lemma_gathered_failure_stays(outcomes, i + 1);
                }
                return Err(ApiError::from_parse_failure(balances[i].1.as_str()));
            },
            Some(units) => {
                if units.raw > DUST {
                    match trading_symbol_lookup(balances[i].0.as_str()) {
                        Ok(symbol) => {
                            res.push(symbol);
                            proof {
                                assert(texts_of(res@) =~= texts_of(before).push(symbol@));
                            }
                        },
                        Err(e) => {
                            proof {
                                lemma_gathered_failure_stays(outcomes, i + 1);
                            }
                            return Err(e);
                        },
                    }
                }
            },
        }
        i = i + 1;
    }
    proof {
        assert(outcomes.take(i as int) =~= outcomes);
    }
    Ok(res)
}

/// The account's assets, from its balances and the prices by asset. A balance
/// of a billionth or less adds nothing; the first balance that cannot be read
/// fails the whole list.
pub fn get_assets_of_kraken_account(balances: &Vec<(String, String)>, prices: &Table<Decimal>) -> (r:
    Result<Vec<GenericAsset>, ApiError>)
    requires
        prices.wf(),
    ensures
        match gathered(balances@.map_values(|b: (String, String)| kraken_outcome(b, *prices))) {
            Ok(found) => r matches Ok(assets) && models(assets@) == found,
            Err(failure) => r matches Err(e) && e.failure() == failure,
        },
{
    let ghost outcomes = balances@.map_values(|b: (String, String)| kraken_outcome(b, *prices));
    let mut res: Vec<GenericAsset> = Vec::new();
    let mut i: usize = 0;
    proof {
        assert(outcomes.take(0) =~= Seq::empty());
        assert(models(res@) =~= Seq::empty());
    }
    while i < balances.len()
        invariant
            i <= balances.len(),
            prices.wf(),
            outcomes == balances@.map_values(|b: (String, String)| kraken_outcome(b, *prices)),
            gathered(outcomes.take(i as int)) == Ok::<Seq<AssetModel>, Failure>(models(res@)),
        decreases balances.len() - i,
    {
        proof {
            lemma_gathered_step(outcomes, i as int);
        }
        let ghost before = res@;
        match kraken_asset(&balances[i], prices) {
            None => {},
            Some(Ok(asset)) => {
                res.push(asset);
                proof {
                    assert(models(res@) =~= models(before).push(asset.model()));
                }
            },
            Some(Err(e)) => {
                proof {
                    lemma_gathered_failure_stays(outcomes, i + 1);
                }
                return Err(e);
            },
        }
        i = i + 1;
    }
    proof {
        assert(outcomes.take(i as int) =~= outcomes);
    }
    Ok(res)
}

} // verus!
