use vstd::prelude::*;
use vstd::string::StringExecFns;
use crate::account::ScalableAccount;
use crate::asset::{Asset, AssetModel, GenericAsset};
use crate::credential::{
    retry_logged_in, retry_started, Awaited, RefreshRetry, RetryAction,
};
use crate::decimal::Decimal;
use crate::error::{parse_failure, ApiError, ErrorKind, Failure};
use crate::json::{element_then, member_then, then_element, then_member, Json};
use crate::parse::{decimal_text, first_dot, lemma_first_dot_is};
use crate::text::{base64_decoded, decode_base64};
use vstd::string::StrSliceExecFns;
use crate::table::Table;

verus! {

/// The access tokens of the logins made so far, by the e-mail address of the
/// account.
pub struct ScalableCache {
    access_token_map: Table<String>,
}

impl ScalableCache {
    /// The access token kept for the e-mail address, if there is one.
    pub closed spec fn token_of(&self, email: Seq<char>) -> Option<Seq<char>> {
        match self.access_token_map.value_at(email) {
            Some(token) => Some(token@),
            None => None,
        }
    }

    /// The cache keeps each e-mail address once.
    pub closed spec fn wf(&self) -> bool {
        self.access_token_map.wf()
    }

    /// A cache without tokens.
    pub fn new() -> (cache: ScalableCache)
        ensures
            cache.wf(),
            forall|email: Seq<char>| cache.token_of(email) is None,
    {
        ScalableCache { access_token_map: Table::new() }
    }

    /// A copy of the access token kept for the e-mail address.
    pub fn get(&self, email: &String) -> (token: Option<String>)
        requires
            self.wf(),
        ensures
            match token {
                Some(token) => self.token_of(email@) == Some(token@),
                None => self.token_of(email@) is None,
            },
    {
        match self.access_token_map.get(email.as_str()) {
            None => None,
            Some(v) => Some(v.clone()),
        }
    }

    /// Keeps the access token `s` for the e-mail address.
    pub fn set(&mut self, email: String, s: String)
        requires
            old(self).wf(),
        ensures
            final(self).wf(),
            final(self).token_of(email@) == Some(s@),
            forall|other: Seq<char>|
                other != email@ ==> final(self).token_of(other) == old(self).token_of(other),
    {
        self.access_token_map.insert(email, s);
    }
}

/// The two holdings that a brokerage account makes: its stocks and its
/// crypto assets, each worth its valuation in euros and neither growing.
pub open spec fn brokerage_assets(
    account_name: Seq<char>,
    stocks: Decimal,
    crypto: Decimal,
    eur_price: Decimal,
) -> Seq<AssetModel> {
    seq![
        AssetModel {
            name: "Stocks on Scalable"@,
            description: account_name + " | Stocks"@,
            units: stocks,
            unit_price: eur_price,
            nominal_growth: Decimal { raw: 0 },
        },
        AssetModel {
            name: "Crypto on Scalable"@,
            description: account_name + " | Crypto"@,
            units: crypto,
            unit_price: eur_price,
            nominal_growth: Decimal { raw: 0 },
        },
    ]
}

/// The holdings of a brokerage account, from the two valuations that the
/// broker reports and the price of the euro in USD.
pub fn get_assets(
    account_name: &String,
    stocks: Decimal,
    crypto: Decimal,
    eur_price: Decimal,
) -> (assets: Vec<GenericAsset>)
    ensures
        assets@.len() == 2,
        assets@[0].model() == brokerage_assets(account_name@, stocks, crypto, eur_price)[0],
        assets@[1].model() == brokerage_assets(account_name@, stocks, crypto, eur_price)[1],
{
    let mut stocks_description = account_name.clone();
    stocks_description.append(" | Stocks");
    let mut crypto_description = account_name.clone();
    crypto_description.append(" | Crypto");
    let mut assets: Vec<GenericAsset> = Vec::new();
    assets.push(
        GenericAsset::new(
            Decimal::zero(),
            String::from_str("Stocks on Scalable"),
            stocks_description,
            stocks,
            eur_price,
        ),
    );
    assets.push(
        GenericAsset::new(
            Decimal::zero(),
            String::from_str("Crypto on Scalable"),
            crypto_description,
            crypto,
            eur_price,
        ),
    );
    assets
}

/// Begins the valuation of a brokerage account: the portfolio is fetched with
/// the access token that the cache keeps for the account, and after a login
/// where it keeps none.
pub fn get_assets_of_scalable_account(cache: &ScalableCache, account: &ScalableAccount) -> (r:
    (RefreshRetry, RetryAction))
    requires
        cache.wf(),
    ensures
        (r.0.model(), r.1.model()) == retry_started(cache.token_of(account.email@)),
{
    RefreshRetry::start(cache.get(&account.email))
}

/// Takes the access token of the login that was asked for: the cache keeps it
/// for the account, and the portfolio is fetched with it.
pub fn logged_in(
    session: &mut RefreshRetry,
    cache: &mut ScalableCache,
    account: &ScalableAccount,
    access_token: String,
) -> (action: RetryAction)
    requires
        old(session).model().awaited == Awaited::Login,
        old(cache).wf(),
    ensures
        (final(session).model(), action.model()) == retry_logged_in(
            old(session).model(),
            access_token@,
        ),
        final(cache).wf(),
        final(cache).token_of(account.email@) == Some(access_token@),
        forall|other: Seq<char>|
            other != account.email@ ==> final(cache).token_of(other) == old(cache).token_of(other),
{
    cache.set(account.email.clone(), access_token.clone());
    session.logged_in(access_token)
}

/// The request for the portfolios of a person, up to the person's id.
pub open spec fn request_head() -> Seq<char> {
    "[{\"operationName\":\"getBrokerPortfolios\",\"variables\":{\"personId\":\""@
}

/// The request for the portfolios of a person, from the person's id on.
pub open spec fn request_tail() -> Seq<char> {
    "\"},\"query\":\"query getBrokerPortfolios($personId: ID!) {\\n  account(id: $personId) {\\n    id\\n    ...BrokerPortfoliosOnAccountFragment\\n    __typename\\n  }\\n}\\n\\nfragment BrokerPortfoliosOnAccountFragment on Account {\\n  brokerPortfolios {\\n    id\\n    totalSavingsPlanAmount\\n    numberOfPendingOrders\\n    postOnboardingInfo {\\n      id\\n      allStepsCompleted\\n      steps {\\n        status\\n        type\\n        __typename\\n      }\\n      __typename\\n    }\\n    valuation {\\n      id\\n      valuation\\n      cryptoValuation\\n      time\\n      timeWeightedReturnByTimeframe {\\n        timeframe\\n        performance\\n        simpleAbsoluteReturn\\n        __typename\\n      }\\n      __typename\\n    }\\n    selectedOffer {\\n      id\\n      __typename\\n    }\\n    __typename\\n  }\\n  __typename\\n}\\n\"}]"@
}

/// The request for the portfolios of a person: a JSON document that names
/// the person by id.
pub fn get_graphql_request(person_id: &str) -> (request: String)
    ensures
        request@ == request_head() + person_id@ + request_tail(),
{
    let mut request = String::from_str(
        "[{\"operationName\":\"getBrokerPortfolios\",\"variables\":{\"personId\":\"",
    );
    request.append(person_id);
    request.append(
        "\"},\"query\":\"query getBrokerPortfolios($personId: ID!) {\\n  account(id: $personId) {\\n    id\\n    ...BrokerPortfoliosOnAccountFragment\\n    __typename\\n  }\\n}\\n\\nfragment BrokerPortfoliosOnAccountFragment on Account {\\n  brokerPortfolios {\\n    id\\n    totalSavingsPlanAmount\\n    numberOfPendingOrders\\n    postOnboardingInfo {\\n      id\\n      allStepsCompleted\\n      steps {\\n        status\\n        type\\n        __typename\\n      }\\n      __typename\\n    }\\n    valuation {\\n      id\\n      valuation\\n      cryptoValuation\\n      time\\n      timeWeightedReturnByTimeframe {\\n        timeframe\\n        performance\\n        simpleAbsoluteReturn\\n        __typename\\n      }\\n      __typename\\n    }\\n    selectedOffer {\\n      id\\n      __typename\\n    }\\n    __typename\\n  }\\n  __typename\\n}\\n\"}]",
    );
    request
}

/// Where the broker's answer states the valuation of the first portfolio.
pub open spec fn valuation_of(v: Json) -> Option<Json> {
    then_member(
        then_element(
            then_member(
                then_member(then_member(v.element_of(0), "data"@), "account"@),
                "brokerPortfolios"@,
            ),
            0,
        ),
        "valuation"@,
    )
}

/// The number that a value holds.
pub open spec fn number_value(value: Json) -> Option<Decimal> {
    match value.number_of() {
        Some(number) => decimal_text(number),
        None => None,
    }
}

/// The valuations of the stocks and of the crypto assets in the broker's
/// answer. An answer that does not state both is not in the form that was
/// expected; one that states something else than a number cannot be read.
pub open spec fn stock_crypto_balance(v: Json) -> Result<(Decimal, Decimal), Failure> {
    match (
        then_member(valuation_of(v), "valuation"@),
        then_member(valuation_of(v), "cryptoValuation"@),
    ) {
        (Some(stocks), Some(crypto)) => match (number_value(stocks), number_value(crypto)) {
            (Some(stocks), Some(crypto)) => Ok((stocks, crypto)),
            _ => Err(parse_failure("Scalable valuation"@)),
        },
        _ => Err(
            Failure {
                kind: ErrorKind::InvariantViolation,
                message: "Unexpected Scalable GraphQL response format"@,
            },
        ),
    }
}

/// The number that a value holds.
fn value_number(value: &Json) -> (number: Option<Decimal>)
    ensures
        number == number_value(*value),
{
    match value.number() {
        Some(number) => Decimal::parse(number.as_str()),
        None => None,
    }
}

/// The valuations of the stocks and of the crypto assets in the broker's
/// answer to the request for the portfolios.
pub fn stock_crypto_balance_from_json(v: &Json) -> (r: Result<(Decimal, Decimal), ApiError>)
    ensures
        match stock_crypto_balance(*v) {
            Ok(balances) => r matches Ok(found) && found == balances,
            Err(failure) => r matches Err(e) && e.failure() == failure,
        },
{
    let valuation = member_then(
        element_then(
            member_then(
                member_then(member_then(v.element(0), "data"), "account"),
                "brokerPortfolios",
            ),
            0,
        ),
        "valuation",
    );
    let stock_valuation = member_then(valuation, "valuation");
    let crypto_valuation = member_then(valuation, "cryptoValuation");
    match (stock_valuation, crypto_valuation) {
        (Some(stocks), Some(crypto)) => match (value_number(stocks), value_number(crypto)) {
            (Some(stocks), Some(crypto)) => Ok((stocks, crypto)),
            _ => Err(ApiError::from_parse_failure("Scalable valuation")),
        },
        _ => Err(
            ApiError::with_kind(
                ErrorKind::InvariantViolation,
                String::from_str("Unexpected Scalable GraphQL response format"),
            ),
        ),
    }
}

/// The access token in the broker's answer to a login: the text under
/// `accessToken` of the first element. An answer without it means that the
/// login failed.
pub open spec fn access_token_of(result: Json) -> Result<Seq<char>, Failure> {
    match then_member(result.element_of(0), "accessToken"@) {
        None => Err(Failure { kind: ErrorKind::Auth, message: "Scalable Capital login failed."@ }),
        Some(token) => match token.text_of() {
            Some(token) => Ok(token),
            None => Err(
                Failure {
                    kind: ErrorKind::InvariantViolation,
                    message: "Unexpected Scalable login response format"@,
                },
            ),
        },
    }
}

/// The access token, from the broker's answer to a login.
pub fn get_access_token(result: &Json) -> (r: Result<String, ApiError>)
    ensures
        match access_token_of(*result) {
            Ok(token) => r matches Ok(found) && found@ == token,
            Err(failure) => r matches Err(e) && e.failure() == failure,
        },
{
    match member_then(result.element(0), "accessToken") {
        None => Err(
            ApiError::with_kind(ErrorKind::Auth, String::from_str("Scalable Capital login failed.")),
        ),
        Some(token) => match token.text() {
            Some(token) => Ok(token.clone()),
            None => Err(
                ApiError::with_kind(
                    ErrorKind::InvariantViolation,
                    String::from_str("Unexpected Scalable login response format"),
                ),
            ),
        },
    }
}

/// The second of the parts of a text that points divide, if there is a point.
pub open spec fn second_part(text: Seq<char>) -> Option<Seq<char>> {
    let first = first_dot(text);
    if first < text.len() {
        let rest = text.skip(first + 1);
        Some(rest.take(first_dot(rest)))
    } else {
        None
    }
}

/// The bytes of the payload of an access token: the second of its parts, read
/// as base64.
pub open spec fn payload_of(access_token: Seq<char>) -> Result<Seq<u8>, Failure> {
    match second_part(access_token) {
        Some(part) => match base64_decoded(part) {
            Some(bytes) => Ok(bytes),
            None => Err(
                Failure {
                    kind: ErrorKind::Parse,
                    message: "Scalable access token with unreadable payload"@,
                },
            ),
        },
        None => Err(
            Failure { kind: ErrorKind::Parse, message: "Scalable access token without payload"@ },
        ),
    }
}

/// The place of the first point at or after `from`, or the length of the
/// text where there is none.
fn find_dot(text: &str, from: usize) -> (end: usize)
    requires
        from <= text@.len(),
    ensures
        from <= end <= text@.len(),
        end - from == first_dot(text@.skip(from as int)),
{
    let ghost body = text@.skip(from as int);
    let n = text.unicode_len();
    let mut i: usize = from;
    while i < n
        invariant
            from <= i <= n,
            n == text@.len(),
            body == text@.skip(from as int),
            forall|j: int| 0 <= j < i - from ==> body[j] != '.',
        decreases n - i,
    {
        if text.get_char(i) == '.' {
            proof {
                assert(body[i - from] == text@[i as int]);
                lemma_first_dot_is(body, i - from);
            }
            return i;
        }
        assert(body[i - from] == text@[i as int]);
        i = i + 1;
    }
    proof {
        lemma_first_dot_is(body, i - from);
    }
    i
}

/// The bytes of the payload of an access token.
pub fn token_payload(access_token: &str) -> (r: Result<Vec<u8>, ApiError>)
    ensures
        match payload_of(access_token@) {
            Ok(bytes) => r matches Ok(found) && found@ == bytes,
            Err(failure) => r matches Err(e) && e.failure() == failure,
        },
{
    let n = access_token.unicode_len();
    let first = find_dot(access_token, 0);
    assert(access_token@.skip(0) =~= access_token@);
    if first >= n {
        return Err(
            ApiError::with_kind(
                ErrorKind::Parse,
                String::from_str("Scalable access token without payload"),
            ),
        );
    }
    let second = find_dot(access_token, first + 1);
    let part = access_token.substring_char(first + 1, second);
    assert(part@ =~= access_token@.skip(first + 1).take(second - first - 1));
    match decode_base64(part) {
        Some(bytes) => Ok(bytes),
        None => Err(
            ApiError::with_kind(
                ErrorKind::Parse,
                String::from_str("Scalable access token with unreadable payload"),
            ),
        ),
    }
}

/// The person that an access token was made out to: the text under
/// `person_id` of the token's payload.
pub open spec fn person_id_of(payload: Json) -> Result<Seq<char>, Failure> {
    match payload.member_of("person_id"@) {
        None => Err(
            Failure {
                kind: ErrorKind::InvariantViolation,
                message: "person_id not found in Scalabe JWT"@,
            },
        ),
        Some(id) => match id.text_of() {
            Some(id) => Ok(id),
            None => Err(parse_failure("person_id"@)),
        },
    }
}

/// The person that an access token was made out to, from the token's payload.
pub fn get_person_id_from_access_token(payload: &Json) -> (r: Result<String, ApiError>)
    ensures
        match person_id_of(*payload) {
            Ok(id) => r matches Ok(found) && found@ == id,
            Err(failure) => r matches Err(e) && e.failure() == failure,
        },
{
    match payload.member("person_id") {
        None => Err(
            ApiError::with_kind(
                ErrorKind::InvariantViolation,
                String::from_str("person_id not found in Scalabe JWT"),
            ),
        ),
        Some(id) => match id.text() {
            Some(id) => Ok(id.clone()),
            None => Err(ApiError::from_parse_failure("person_id")),
        },
    }
}

} // verus!
