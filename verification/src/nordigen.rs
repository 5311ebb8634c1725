use vstd::prelude::*;
use vstd::pervasive::unreached;
use vstd::string::StringExecFns;
use crate::account::NordigenAccount;
use crate::asset::{Asset, AssetModel, GenericAsset};
use crate::credential::{
    retry_fetched, retry_logged_in, retry_rejected, retry_started, Awaited, RefreshRetry,
    RetryAction, RetryModel,
};
use crate::decimal::Decimal;
use crate::error::{parse_failure, ApiError, ErrorKind, Failure};
use crate::json::{then_element, then_member, Json};
use crate::parse::decimal_text;
use crate::table::Table;
use crate::text::str_eq;

verus! {

/// The seconds of an hour.
pub const SECONDS_PER_HOUR: u64 = 3600;

/// The price in USD at which a balance is valued that was fetched with the
/// token in use: 1.19.
pub const PRICE_AT_FIRST_FETCH: i128 = 1_190_000_000;

/// The price in USD at which a balance is valued that was fetched after a
/// fresh login: 1.13.
pub const PRICE_AT_RETRY: i128 = 1_130_000_000;

/// A currency in which a bank keeps an account.
#[derive(Clone, Copy, Debug, PartialEq, Eq, Structural)]
pub enum FiatCurrency {
    EURO,
    USD,
}

/// The currency that a code stands for.
pub open spec fn currency_of(code: Seq<char>) -> Option<FiatCurrency> {
    if code == "EUR"@ {
        Some(FiatCurrency::EURO)
    } else if code == "USD"@ {
        Some(FiatCurrency::USD)
    } else {
        None
    }
}

impl FiatCurrency {
    /// The code of the currency.
    pub open spec fn code(&self) -> Seq<char> {
        match *self {
            FiatCurrency::EURO => "EUR"@,
            FiatCurrency::USD => "USD"@,
        }
    }

    /// The code of the currency.
    pub fn to_string(&self) -> (code: String)
        ensures
            code@ == self.code(),
    {
        String::from_str(
            match self {
                FiatCurrency::EURO => "EUR",
                FiatCurrency::USD => "USD",
            },
        )
    }

    /// The currency that a code stands for, if it stands for one.
    pub fn parse(code: &str) -> (currency: Option<FiatCurrency>)
        ensures
            currency == currency_of(code@),
    {
        if str_eq(code, "EUR") {
            Some(FiatCurrency::EURO)
        } else if str_eq(code, "USD") {
            Some(FiatCurrency::USD)
        } else {
            None
        }
    }

    /// The currency that a code stands for.
    pub fn from_string(string: String) -> (currency: FiatCurrency)
        requires
            currency_of(string@) is Some,
        ensures
            Some(currency) == currency_of(string@),
    {
        match FiatCurrency::parse(string.as_str()) {
            Some(currency) => currency,
            None => unreached(),
        }
    }
}

/// A balance as it was fetched, with the time of the fetch in seconds.
#[derive(Clone, Copy, Debug, PartialEq, Eq, Structural)]
pub struct CachedBalance {
    pub time: u64,
    pub balance: Decimal,
    pub currency: FiatCurrency,
}

/// Whether a balance fetched at `time` may still be used at `now`: it may
/// while it is no older than `max_age`.
pub open spec fn is_fresh(time: u64, now: u64, max_age: u64) -> bool {
    now - time <= max_age
}

/// What a cache hands out for an entry at the time `now`.
pub open spec fn fresh_balance(entry: Option<CachedBalance>, now: u64, max_age: u64) -> Option<
    (Decimal, FiatCurrency),
> {
    match entry {
        Some(cached) => if is_fresh(cached.time, now, max_age) {
            Some((cached.balance, cached.currency))
        } else {
            None
        },
        None => None,
    }
}

/// A balance that was fetched is handed out again until it is older than
/// `max_age`, and no longer.
pub proof fn lemma_cached_balance_lives_for_max_age(entry: CachedBalance, now: u64, max_age: u64)
    ensures
        now - entry.time <= max_age ==> fresh_balance(Some(entry), now, max_age) == Some(
            (entry.balance, entry.currency),
        ),
        now - entry.time > max_age ==> fresh_balance(Some(entry), now, max_age) is None,
{
}

/// The balances that were fetched last, each kept for a while, and the one
/// access token that serves every account of the source.
pub struct NordigenCache {
    /// For how many seconds a balance may be used.
    pub max_age: u64,
    /// The access token; empty where none was set.
    pub access_token: String,
    /// What was fetched last for each account.
    pub balance_table: Table<CachedBalance>,
}

impl NordigenCache {
    /// For how many seconds a balance may be used.
    pub open spec fn ttl(&self) -> u64 {
        self.max_age
    }

    /// The access token; empty where none was set.
    pub closed spec fn access_token(&self) -> Seq<char> {
        self.access_token@
    }

    /// What was fetched last for the account, and when.
    pub closed spec fn cached(&self, account_id: Seq<char>) -> Option<CachedBalance> {
        self.balance_table.value_at(account_id)
    }

    /// The cache keeps each account once.
    pub closed spec fn wf(&self) -> bool {
        self.balance_table.wf()
    }

    /// An empty cache that keeps balances for the given number of hours.
    pub fn new(max_age_hours: u64) -> (cache: NordigenCache)
        requires
            max_age_hours * SECONDS_PER_HOUR <= u64::MAX,
        ensures
            cache.wf(),
            cache.ttl() == max_age_hours * SECONDS_PER_HOUR,
            cache.access_token() == Seq::<char>::empty(),
            forall|id: Seq<char>| cache.cached(id) is None,
    {
        NordigenCache {
            max_age: max_age_hours * SECONDS_PER_HOUR,
            access_token: String::new(),
            balance_table: Table::new(),
        }
    }

    /// The balance of the account, where it was fetched no longer than
    /// `max_age` before `now`.
    pub fn get(&self, account_id: &String, now: u64) -> (hit: Option<(Decimal, FiatCurrency)>)
        requires
            self.wf(),
        ensures
            hit == fresh_balance(self.cached(account_id@), now, self.ttl()),
    {
        match self.balance_table.get(account_id.as_str()) {
            None => None,
            Some(cached) => {
                if now > cached.time && now - cached.time > self.max_age {
                    None
                } else {
                    Some((cached.balance, cached.currency))
                }
            },
        }
    }

    /// Keeps the balance of the account as fetched at `now`.
    pub fn set(&mut self, account_id: String, balance: Decimal, currency: FiatCurrency, now: u64)
        requires
            old(self).wf(),
        ensures
            final(self).wf(),
            final(self).ttl() == old(self).ttl(),
            final(self).access_token() == old(self).access_token(),
            final(self).cached(account_id@) == Some(CachedBalance { time: now, balance, currency }),
            forall|other: Seq<char>|
                other != account_id@ ==> final(self).cached(other) == old(self).cached(other),
    {
        self.balance_table.insert(account_id, CachedBalance { time: now, balance, currency });
    }

    /// Keeps the access token.
    pub fn set_access_token(&mut self, access_token: String)
        ensures
            final(self).wf() == old(self).wf(),
            final(self).ttl() == old(self).ttl(),
            final(self).access_token() == access_token@,
            forall|id: Seq<char>| final(self).cached(id) == old(self).cached(id),
    {
        self.access_token = access_token;
    }

    /// A copy of the access token; empty where none was set.
    pub fn get_access_token(&self) -> (access_token: String)
        ensures
            access_token@ == self.access_token(),
    {
        self.access_token.clone()
    }
}

/// What the caller of a valuation is to do next.
pub enum NordigenAction {
    /// The balance is cached: value it at the current price of the euro.
    Hit { balance: Decimal, currency: FiatCurrency },
    /// Ask for a new access token with the account's refresh token.
    Login,
    /// Ask for the balance with this access token.
    Fetch { access_token: String },
    /// Give up.
    Failed(crate::error::ApiError),
}

/// What a `NordigenAction` says.
pub enum NordigenStep {
    Hit { balance: Decimal, currency: FiatCurrency },
    Session(crate::credential::RetryStep),
}

impl NordigenAction {
    /// What this action says.
    pub open spec fn model(&self) -> NordigenStep {
        match *self {
            NordigenAction::Hit { balance, currency } => NordigenStep::Hit { balance, currency },
            NordigenAction::Login => NordigenStep::Session(crate::credential::RetryStep::Login),
            NordigenAction::Fetch { access_token } => NordigenStep::Session(
                crate::credential::RetryStep::Fetch(access_token@),
            ),
            NordigenAction::Failed(e) => NordigenStep::Session(
                crate::credential::RetryStep::Failed(e.kind(), e.message()),
            ),
        }
    }
}

/// The action of a valuation that a session's action stands for.
fn of_session(action: RetryAction) -> (r: NordigenAction)
    ensures
        r.model() == NordigenStep::Session(action.model()),
{
    match action {
        RetryAction::Login => NordigenAction::Login,
        RetryAction::Fetch(access_token) => NordigenAction::Fetch { access_token },
        RetryAction::Failed(e) => NordigenAction::Failed(e),
    }
}

/// The token that a cache holds: none where the text is empty.
pub open spec fn token_in(access_token: Seq<char>) -> Option<Seq<char>> {
    if access_token.len() == 0 {
        None
    } else {
        Some(access_token)
    }
}

/// The holding that a bank balance makes: the currency's code names it, the
/// account's name describes it, and it does not grow.
pub open spec fn bank_asset(
    account: NordigenAccount,
    balance: Decimal,
    currency: FiatCurrency,
    price: Decimal,
) -> AssetModel {
    AssetModel {
        name: currency.code(),
        description: account.name@,
        units: balance,
        unit_price: price,
        nominal_growth: Decimal { raw: 0 },
    }
}

/// The price at which a fetched balance is valued.
pub open spec fn price_after(m: RetryModel) -> Decimal {
    if m.relogged {
        Decimal { raw: PRICE_AT_RETRY }
    } else {
        Decimal { raw: PRICE_AT_FIRST_FETCH }
    }
}

/// The valuation of one bank account: a look into the cache, and on a miss a
/// session of the login-and-retry protocol.
pub struct NordigenSession {
    session: Option<RefreshRetry>,
}

impl NordigenSession {
    /// How far the session has come; `None` where the cache answered.
    pub closed spec fn model(&self) -> Option<RetryModel> {
        match self.session {
            Some(session) => Some(session.model()),
            None => None,
        }
    }

    /// What the session waits for; `None` where the cache answered.
    pub fn awaits(&self) -> (awaited: Option<Awaited>)
        ensures
            awaited == (match self.model() {
                Some(m) => Some(m.awaited),
                None => None,
            }),
    {
        match &self.session {
            Some(session) => Some(session.awaits()),
            None => None,
        }
    }

    /// The list that holds the one holding of a bank account.
    pub fn assets_of(
        account: &NordigenAccount,
        balance: Decimal,
        currency: FiatCurrency,
        price: Decimal,
    ) -> (assets: Vec<GenericAsset>)
        ensures
            assets@.len() == 1,
            assets@[0].model() == bank_asset(*account, balance, currency, price),
    {
        let mut assets: Vec<GenericAsset> = Vec::new();
        assets.push(
            GenericAsset::new(
                Decimal::zero(),
                currency.to_string(),
                account.name.clone(),
                balance,
                price,
            ),
        );
        assets
    }

    /// Takes the access token of the login that was asked for: the cache keeps
    /// it, and the balance is fetched with it.
    pub fn logged_in(&mut self, cache: &mut NordigenCache, access_token: String) -> (action:
        NordigenAction)
        requires
            old(self).model() matches Some(m) && m.awaited == Awaited::Login,
        ensures
            final(self).model() == Some(
                retry_logged_in(old(self).model()->0, access_token@).0,
            ),
            action.model() == NordigenStep::Session(
                retry_logged_in(old(self).model()->0, access_token@).1,
            ),
            final(cache).access_token() == access_token@,
            final(cache).wf() == old(cache).wf(),
            final(cache).ttl() == old(cache).ttl(),
            forall|id: Seq<char>| final(cache).cached(id) == old(cache).cached(id),
    {
        cache.set_access_token(access_token.clone());
        match &mut self.session {
            Some(session) => of_session(session.logged_in(access_token)),
            None => unreached(),
        }
    }

    /// Takes note that the bank rejected the access token.
    pub fn token_expired(&mut self) -> (action: NordigenAction)
        requires
            old(self).model() matches Some(m) && m.awaited == Awaited::Fetch,
        ensures
            final(self).model() == Some(retry_rejected(old(self).model()->0, "Nordigen"@).0),
            action.model() == NordigenStep::Session(
                retry_rejected(old(self).model()->0, "Nordigen"@).1,
            ),
    {
        match &mut self.session {
            Some(session) => of_session(session.token_rejected("Nordigen")),
            None => unreached(),
        }
    }

    /// Takes the balance that was fetched at `now`: the cache keeps it, and
    /// it makes the account's one holding.
    pub fn balance_fetched(
        &mut self,
        cache: &mut NordigenCache,
        account: &NordigenAccount,
        balance: Decimal,
        currency: FiatCurrency,
        now: u64,
    ) -> (assets: Vec<GenericAsset>)
        requires
            old(self).model() matches Some(m) && m.awaited == Awaited::Fetch,
            old(cache).wf(),
        ensures
            final(self).model() == Some(retry_fetched(old(self).model()->0)),
            assets@.len() == 1,
            assets@[0].model() == bank_asset(
                *account,
                balance,
                currency,
                price_after(old(self).model()->0),
            ),
            final(cache).wf(),
            final(cache).ttl() == old(cache).ttl(),
            final(cache).access_token() == old(cache).access_token(),
            final(cache).cached(account.account_id@) == Some(
                CachedBalance { time: now, balance, currency },
            ),
            forall|other: Seq<char>|
                other != account.account_id@ ==> final(cache).cached(other) == old(cache).cached(
                    other,
                ),
    {
        cache.set(account.account_id.clone(), balance, currency, now);
        let relogged = match &mut self.session {
            Some(session) => {
                let relogged = session.has_relogged();
                session.fetched();
                relogged
            },
            None => unreached(),
        };
        let price = if relogged {
            Decimal { raw: PRICE_AT_RETRY }
        } else {
            Decimal { raw: PRICE_AT_FIRST_FETCH }
        };
        NordigenSession::assets_of(account, balance, currency, price)
    }
}

/// Begins the valuation of a bank account at the time `now`. A balance that
/// the cache still holds is handed out, and nothing is asked of the bank. On
/// a miss the balance is fetched with the cached access token, and after a
/// login where none is cached.
pub fn get_assets_of_nordigen_account(
    nordigen_cache: &NordigenCache,
    account: &NordigenAccount,
    now: u64,
) -> (r: (NordigenSession, NordigenAction))
    requires
        nordigen_cache.wf(),
    ensures
        match fresh_balance(
            nordigen_cache.cached(account.account_id@),
            now,
            nordigen_cache.ttl(),
        ) {
            Some((balance, currency)) => r.0.model() is None && r.1.model() == (NordigenStep::Hit {
                balance,
                currency,
            }),
            None => r.0.model() == Some(
                retry_started(token_in(nordigen_cache.access_token())).0,
            ) && r.1.model() == NordigenStep::Session(
                retry_started(token_in(nordigen_cache.access_token())).1,
            ),
        },
{
    match nordigen_cache.get(&account.account_id, now) {
        Some((balance, currency)) => (
            NordigenSession { session: None },
            NordigenAction::Hit { balance, currency },
        ),
        None => {
            let token = nordigen_cache.get_access_token();
            let cached = if token.as_str().unicode_len() == 0 {
                None
            } else {
                Some(token)
            };
            let (session, action) = RefreshRetry::start(cached);
            (NordigenSession { session: Some(session) }, of_session(action))
        },
    }
}

/// What the bank answered to the question for a balance.
#[derive(Clone, Copy, Debug, PartialEq, Eq, Structural)]
pub enum BalanceAccountResult {
    /// The balance and its currency.
    Balance(Decimal, FiatCurrency),
    /// The access token is no longer accepted.
    AccessTokenExpired,
}

/// The access token in the bank's answer to a refresh: the text under
/// `access`. An answer without it means that the refresh token is no longer
/// accepted.
pub open spec fn new_access_token(refresh_token: Seq<char>, result: Json) -> Result<
    Seq<char>,
    Failure,
> {
    match result.member_of("access"@) {
        None => Err(
            Failure {
                kind: ErrorKind::Auth,
                message: "Nordigen refresh token expired: "@ + refresh_token,
            },
        ),
        Some(access) => match access.text_of() {
            Some(token) => Ok(token),
            None => Err(
                Failure {
                    kind: ErrorKind::InvariantViolation,
                    message: "Unexpected Nordigen token response format"@,
                },
            ),
        },
    }
}

/// The new access token, from the bank's answer to a refresh.
pub fn get_new_access_token(refresh_token: &String, result: &Json) -> (r: Result<String, ApiError>)
    ensures
        match new_access_token(refresh_token@, *result) {
            Ok(token) => r matches Ok(found) && found@ == token,
            Err(failure) => r matches Err(e) && e.failure() == failure,
        },
{
    match result.member("access") {
        None => Err(
            ApiError::describe(
                ErrorKind::Auth,
                "Nordigen refresh token expired: ",
                refresh_token.as_str(),
            ),
        ),
        Some(access) => match access.text() {
            Some(token) => Ok(token.clone()),
            None => Err(
                ApiError::with_kind(
                    ErrorKind::InvariantViolation,
                    String::from_str("Unexpected Nordigen token response format"),
                ),
            ),
        },
    }
}

/// The failure of an answer about a balance that is not in the form that was
/// expected.
pub open spec fn unexpected_balance() -> Failure {
    Failure {
        kind: ErrorKind::InvariantViolation,
        message: "Unexpected Nordigen balance response format"@,
    }
}

/// Where the bank's answer states the balance: under `balanceAmount` of the
/// first of the `balances`.
pub open spec fn balance_amount_of(result: Json) -> Option<Json> {
    then_member(then_element(result.member_of("balances"@), 0), "balanceAmount"@)
}

/// What the bank's answer to the question for a balance says. A summary of
/// `Invalid token` means that the access token has expired; a status code of
/// 404 that the bank does not know the account, which then counts as empty;
/// any other answer must state an amount and a currency.
pub open spec fn balance_answer(result: Json) -> Result<BalanceAccountResult, Failure> {
    if result.member_of("summary"@) matches Some(summary) && summary.text_of() == Some(
        "Invalid token"@,
    ) {
        Ok(BalanceAccountResult::AccessTokenExpired)
    } else if result.member_of("status_code"@) matches Some(code) && code.number_of() == Some(
        "404"@,
    ) {
        Ok(BalanceAccountResult::Balance(Decimal { raw: 0 }, FiatCurrency::USD))
    } else {
        match (
            then_member(balance_amount_of(result), "currency"@),
            then_member(balance_amount_of(result), "amount"@),
        ) {
            (Some(currency), Some(amount)) => match (currency.text_of(), amount.text_of()) {
                (Some(currency), Some(amount)) => match decimal_text(amount) {
                    None => Err(parse_failure(amount)),
                    Some(balance) => match currency_of(currency) {
                        None => Err(
                            Failure {
                                kind: ErrorKind::InvariantViolation,
                                message: "Currency not supported yet: "@ + currency,
                            },
                        ),
                        Some(currency) => Ok(BalanceAccountResult::Balance(balance, currency)),
                    },
                },
                _ => Err(unexpected_balance()),
            },
            _ => Err(unexpected_balance()),
        }
    }
}

/// Whether a value is the given text.
fn is_text(value: Option<&Json>, text: &str) -> (same: bool)
    ensures
        same == (value matches Some(value) && value.text_of() == Some(text@)),
{
    match value {
        Some(value) => match value.text() {
            Some(found) => str_eq(found.as_str(), text),
            None => false,
        },
        None => false,
    }
}

/// Whether a value is the given number, written as the document writes it.
fn is_number(value: Option<&Json>, number: &str) -> (same: bool)
    ensures
        same == (value matches Some(value) && value.number_of() == Some(number@)),
{
    match value {
        Some(value) => match value.number() {
            Some(found) => str_eq(found.as_str(), number),
            None => false,
        },
        None => false,
    }
}

/// The failure of an answer that is not in the form that was expected.
fn unexpected_balance_format() -> (e: ApiError)
    ensures
        e.failure() == unexpected_balance(),
{
    ApiError::with_kind(
        ErrorKind::InvariantViolation,
        String::from_str("Unexpected Nordigen balance response format"),
    )
}

/// What the bank answered to the question for a balance.
pub fn get_balance_of_account(result: &Json) -> (r: Result<BalanceAccountResult, ApiError>)
    ensures
        match balance_answer(*result) {
            Ok(answer) => r matches Ok(found) && found == answer,
            Err(failure) => r matches Err(e) && e.failure() == failure,
        },
{
    if is_text(result.member("summary"), "Invalid token") {
        return Ok(BalanceAccountResult::AccessTokenExpired);
    }
    if is_number(result.member("status_code"), "404") {
        return Ok(BalanceAccountResult::Balance(Decimal::zero(), FiatCurrency::USD));
    }
    let details = crate::json::member_then(
        crate::json::element_then(result.member("balances"), 0),
        "balanceAmount",
    );
    let currency = crate::json::member_then(details, "currency");
    let amount = crate::json::member_then(details, "amount");
    let (currency, amount) = match (currency, amount) {
        (Some(currency), Some(amount)) => match (currency.text(), amount.text()) {
            (Some(currency), Some(amount)) => (currency, amount),
            _ => {
                return Err(unexpected_balance_format());
            },
        },
        _ => {
            return Err(unexpected_balance_format());
        },
    };
    let balance = match Decimal::parse(amount.as_str()) {
        Some(balance) => balance,
        None => {
            return Err(ApiError::from_parse_failure(amount.as_str()));
        },
    };
    match FiatCurrency::parse(currency.as_str()) {
        Some(currency) => Ok(BalanceAccountResult::Balance(balance, currency)),
        None => Err(
            ApiError::describe(
                ErrorKind::InvariantViolation,
                "Currency not supported yet: ",
                currency.as_str(),
            ),
        ),
    }
}

} // verus!
