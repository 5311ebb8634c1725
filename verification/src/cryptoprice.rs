use vstd::prelude::*;
use vstd::string::StringExecFns;
use crate::decimal::{unit, Decimal};
use crate::error::{parse_failure, ApiError, ErrorKind, Failure};
use crate::json::Json;
use crate::parse::decimal_text;
use crate::text::str_eq;

verus! {

/// The symbol under which a token is quoted: wrapped Bitcoin goes by the
/// symbol of Bitcoin, every other token by its own.
pub open spec fn quoted_symbol(symbol: Seq<char>) -> Seq<char> {
    if symbol == "BTCB"@ {
        "BTC"@
    } else {
        symbol
    }
}

/// The address at which a token's price is asked. The stablecoin that prices
/// are quoted in is worth one and is not asked for.
pub open spec fn ticker_address(symbol: Seq<char>) -> Option<Seq<char>> {
    if symbol == "BUSD"@ {
        None
    } else {
        Some(
            "https://api.binance.com/api/v1/ticker/24hr?symbol="@ + quoted_symbol(symbol)
                + "BUSD"@,
        )
    }
}

/// The symbol under which a token is quoted.
fn symbol_to_quote(symbol: &String) -> (quoted: String)
    ensures
        quoted@ == quoted_symbol(symbol@),
{
    if str_eq(symbol.as_str(), "BTCB") {
        String::from_str("BTC")
    } else {
        symbol.clone()
    }
}

/// The address at which to ask for a token's price, or `None` where the
/// price is known without asking.
pub fn ticker_url(symbol: &String) -> (url: Option<String>)
    ensures
        match url {
            Some(url) => ticker_address(symbol@) == Some(url@),
            None => ticker_address(symbol@) is None,
        },
{
    if str_eq(symbol.as_str(), "BUSD") {
        return None;
    }
    let quoted = symbol_to_quote(symbol);
    let mut url = String::from_str("https://api.binance.com/api/v1/ticker/24hr?symbol=");
    url.append(quoted.as_str());
    url.append("BUSD");
    Some(url)
}

/// The last price in the ticker's answer: the text under `lastPrice`.
pub open spec fn last_price_of(answer: Json) -> Option<Seq<char>> {
    match answer.member_of("lastPrice"@) {
        Some(price) => price.text_of(),
        None => None,
    }
}

/// The price of a token in USD, given the ticker's answer: one for the
/// stablecoin that prices are quoted in, whatever the answer, and else the
/// number that the answer states as the last price.
pub open spec fn token_price(symbol: Seq<char>, answer: Json) -> Result<Decimal, Failure> {
    if symbol == "BUSD"@ {
        Ok(unit())
    } else {
        match last_price_of(answer) {
            None => Err(
                Failure {
                    kind: ErrorKind::InvariantViolation,
                    message: "Invalid JSON format when looking up price for "@ + quoted_symbol(
                        symbol,
                    ),
                },
            ),
            Some(text) => match decimal_text(text) {
                Some(price) => Ok(price),
                None => Err(parse_failure(text)),
            },
        }
    }
}

/// The price of a token in USD, from the answer of the ticker at
/// `ticker_url`.
pub fn get_token_price(symbol: &String, answer: &Json) -> (r: Result<Decimal, ApiError>)
    ensures
        match token_price(symbol@, *answer) {
            Ok(price) => r matches Ok(found) && found == price,
            Err(failure) => r matches Err(e) && e.failure() == failure,
        },
{
    if str_eq(symbol.as_str(), "BUSD") {
        return Ok(Decimal::one());
    }
    let last_price = match answer.member("lastPrice") {
        Some(price) => price.text(),
        None => None,
    };
    match last_price {
        None => {
            let quoted = symbol_to_quote(symbol);
            Err(
                ApiError::describe(
                    ErrorKind::InvariantViolation,
                    "Invalid JSON format when looking up price for ",
                    quoted.as_str(),
                ),
            )
        },
        Some(text) => match Decimal::parse(text.as_str()) {
            Some(price) => Ok(price),
            None => Err(ApiError::from_parse_failure(text.as_str())),
        },
    }
}

} // verus!
