use get_rich_slow::account::{NordigenAccount, ScalableAccount};
use get_rich_slow::asset::Asset;
use get_rich_slow::credential::{Awaited, RefreshRetry, RetryAction};
use get_rich_slow::decimal::Decimal;
use get_rich_slow::error::ErrorKind;
use get_rich_slow::nordigen::{
    get_assets_of_nordigen_account, FiatCurrency, NordigenAction, NordigenCache, NordigenSession,
};
use get_rich_slow::scalable::{
    get_assets, get_assets_of_scalable_account, logged_in, ScalableCache,
};

fn dec(text: &str) -> Decimal {
    Decimal::parse(text).unwrap()
}

fn bank_account() -> NordigenAccount {
    NordigenAccount {
        name: "Giro".to_string(),
        refresh_token: "refresh".to_string(),
        account_id: "acc-1".to_string(),
    }
}

fn is_login(action: &RetryAction) -> bool {
    matches!(action, RetryAction::Login)
}

fn token_of(action: &RetryAction) -> String {
    match action {
        RetryAction::Fetch(token) => token.clone(),
        RetryAction::Login => panic!("login asked"),
        RetryAction::Failed(_) => panic!("failed"),
    }
}

#[test]
fn session_without_a_token_logs_in_and_then_fetches() {
    let (mut session, action) = RefreshRetry::start(None);
    assert!(is_login(&action));
    assert_eq!(session.awaits(), Awaited::Login);
    assert_eq!(session.token(), None);
    let action = session.logged_in("t1".to_string());
    assert_eq!(token_of(&action), "t1");
    assert_eq!(session.awaits(), Awaited::Fetch);
    session.fetched();
    assert_eq!(session.awaits(), Awaited::Nothing);
    assert_eq!(session.token(), Some("t1".to_string()));
    assert!(!session.has_relogged());
}

#[test]
fn session_with_a_token_fetches_at_once() {
    let (session, action) = RefreshRetry::start(Some("cached".to_string()));
    assert_eq!(token_of(&action), "cached");
    assert_eq!(session.awaits(), Awaited::Fetch);
    assert_eq!(session.token(), Some("cached".to_string()));
}

#[test]
fn stale_token_leads_to_one_login_and_one_retry() {
    let (mut session, action) = RefreshRetry::start(Some("stale".to_string()));
    assert_eq!(token_of(&action), "stale");
    let action = session.token_rejected("Scalable");
    assert!(is_login(&action));
    assert_eq!(session.token(), None);
    assert!(session.has_relogged());
    let action = session.logged_in("fresh".to_string());
    assert_eq!(token_of(&action), "fresh");
    let action = session.token_rejected("Scalable");
    assert_eq!(session.awaits(), Awaited::Nothing);
    match action {
        RetryAction::Failed(e) => {
            assert_eq!(e.get_kind(), ErrorKind::Auth);
            assert_eq!(e.get_message(), "Scalable access expired immediately");
        }
        RetryAction::Login => panic!("a second login was asked"),
        RetryAction::Fetch(_) => panic!("a third fetch was asked"),
    }
}

#[test]
fn fresh_token_that_is_rejected_is_renewed_once() {
    let (mut session, action) = RefreshRetry::start(None);
    assert!(is_login(&action));
    let action = session.logged_in("t1".to_string());
    assert_eq!(token_of(&action), "t1");
    let action = session.token_rejected("Nordigen");
    assert!(is_login(&action));
    let action = session.logged_in("t2".to_string());
    assert_eq!(token_of(&action), "t2");
    session.fetched();
    assert_eq!(session.token(), Some("t2".to_string()));
    assert!(session.has_relogged());
}

#[test]
fn currencies_and_their_codes() {
    assert_eq!(FiatCurrency::EURO.to_string(), "EUR");
    assert_eq!(FiatCurrency::USD.to_string(), "USD");
    assert_eq!(FiatCurrency::from_string("EUR".to_string()), FiatCurrency::EURO);
    assert_eq!(FiatCurrency::from_string("USD".to_string()), FiatCurrency::USD);
    assert_eq!(FiatCurrency::parse("EUR"), Some(FiatCurrency::EURO));
    assert_eq!(FiatCurrency::parse("GBP"), None);
    assert_eq!(FiatCurrency::parse("eur"), None);
}

#[test]
fn cache_keeps_balances_for_its_hours() {
    let mut cache = NordigenCache::new(2);
    assert_eq!(cache.max_age, 7200);
    assert_eq!(cache.get(&"acc-1".to_string(), 1000), None);
    cache.set("acc-1".to_string(), dec("12.5"), FiatCurrency::EURO, 1000);
    assert_eq!(cache.get(&"acc-1".to_string(), 1000), Some((dec("12.5"), FiatCurrency::EURO)));
    assert_eq!(cache.get(&"acc-1".to_string(), 8200), Some((dec("12.5"), FiatCurrency::EURO)));
    assert_eq!(cache.get(&"acc-1".to_string(), 8201), None);
    assert_eq!(cache.get(&"acc-1".to_string(), 500), Some((dec("12.5"), FiatCurrency::EURO)));
    assert_eq!(cache.get(&"acc-2".to_string(), 1000), None);
    cache.set("acc-2".to_string(), dec("1"), FiatCurrency::USD, 2000);
    cache.set("acc-1".to_string(), dec("13"), FiatCurrency::EURO, 9000);
    assert_eq!(cache.get(&"acc-1".to_string(), 9001), Some((dec("13"), FiatCurrency::EURO)));
    assert_eq!(cache.get(&"acc-2".to_string(), 9001), Some((dec("1"), FiatCurrency::USD)));
    assert_eq!(cache.get(&"acc-2".to_string(), 9201), None);
}

#[test]
fn cache_without_hours_keeps_for_the_same_second() {
    let mut cache = NordigenCache::new(0);
    cache.set("acc".to_string(), dec("1"), FiatCurrency::USD, 10);
    assert_eq!(cache.get(&"acc".to_string(), 10), Some((dec("1"), FiatCurrency::USD)));
    assert_eq!(cache.get(&"acc".to_string(), 11), None);
}

#[test]
fn cache_keeps_one_access_token() {
    let mut cache = NordigenCache::new(1);
    assert_eq!(cache.get_access_token(), "");
    cache.set_access_token("t1".to_string());
    assert_eq!(cache.get_access_token(), "t1");
    cache.set_access_token("t2".to_string());
    assert_eq!(cache.get_access_token(), "t2");
}

#[test]
fn first_valuation_logs_in_fetches_and_fills_the_cache() {
    let mut cache = NordigenCache::new(1);
    let account = bank_account();
    let (mut session, action) = get_assets_of_nordigen_account(&cache, &account, 100);
    assert!(matches!(action, NordigenAction::Login));
    let action = session.logged_in(&mut cache, "t1".to_string());
    match action {
        NordigenAction::Fetch { access_token } => assert_eq!(access_token, "t1"),
        _ => panic!("no fetch asked"),
    }
    assert_eq!(cache.get_access_token(), "t1");
    let assets = session.balance_fetched(&mut cache, &account, dec("250.75"), FiatCurrency::EURO, 101);
    assert_eq!(assets.len(), 1);
    assert_eq!(assets[0].get_name(), "EUR");
    assert_eq!(assets[0].get_description(), "Giro");
    assert_eq!(assets[0].get_units(), dec("250.75"));
    assert_eq!(assets[0].get_unit_price(), dec("1.19"));
    assert_eq!(assets[0].get_growth().get_nominal_growth(), dec("0"));
    assert_eq!(cache.get(&"acc-1".to_string(), 101), Some((dec("250.75"), FiatCurrency::EURO)));
}

#[test]
fn valuation_within_the_hour_is_answered_by_the_cache() {
    let mut cache = NordigenCache::new(1);
    let account = bank_account();
    cache.set_access_token("t1".to_string());
    cache.set("acc-1".to_string(), dec("250.75"), FiatCurrency::EURO, 101);
    let (_, action) = get_assets_of_nordigen_account(&cache, &account, 3701);
    match action {
        NordigenAction::Hit { balance, currency } => {
            assert_eq!(balance, dec("250.75"));
            assert_eq!(currency, FiatCurrency::EURO);
            let assets = NordigenSession::assets_of(&account, balance, currency, dec("1.08"));
            assert_eq!(assets[0].get_unit_price(), dec("1.08"));
            assert_eq!(assets[0].get_units(), dec("250.75"));
        }
        _ => panic!("the cache did not answer"),
    }
    let (_, later) = get_assets_of_nordigen_account(&cache, &account, 3702);
    match later {
        NordigenAction::Fetch { access_token } => assert_eq!(access_token, "t1"),
        _ => panic!("no fetch with the cached token"),
    }
}

#[test]
fn expired_token_is_renewed_once_and_the_balance_valued_lower() {
    let mut cache = NordigenCache::new(1);
    let account = bank_account();
    cache.set_access_token("old".to_string());
    let (mut session, action) = get_assets_of_nordigen_account(&cache, &account, 100);
    match action {
        NordigenAction::Fetch { access_token } => assert_eq!(access_token, "old"),
        _ => panic!("no fetch with the cached token"),
    }
    let action = session.token_expired();
    assert!(matches!(action, NordigenAction::Login));
    let action = session.logged_in(&mut cache, "new".to_string());
    match action {
        NordigenAction::Fetch { access_token } => assert_eq!(access_token, "new"),
        _ => panic!("no retry"),
    }
    assert_eq!(cache.get_access_token(), "new");
    let assets = session.balance_fetched(&mut cache, &account, dec("5"), FiatCurrency::USD, 100);
    assert_eq!(assets[0].get_name(), "USD");
    assert_eq!(assets[0].get_unit_price(), dec("1.13"));
}

#[test]
fn token_that_expires_twice_is_an_authentication_error() {
    let mut cache = NordigenCache::new(1);
    let account = bank_account();
    cache.set_access_token("old".to_string());
    let (mut session, _) = get_assets_of_nordigen_account(&cache, &account, 100);
    let _ = session.token_expired();
    let _ = session.logged_in(&mut cache, "new".to_string());
    match session.token_expired() {
        NordigenAction::Failed(e) => {
            assert_eq!(e.get_kind(), ErrorKind::Auth);
            assert_eq!(e.get_message(), "Nordigen access expired immediately");
        }
        _ => panic!("the valuation went on"),
    }
}

#[test]
fn scalable_cache_keeps_tokens_by_address() {
    let mut cache = ScalableCache::new();
    assert_eq!(cache.get(&"a@example.org".to_string()), None);
    cache.set("a@example.org".to_string(), "t1".to_string());
    cache.set("b@example.org".to_string(), "t2".to_string());
    assert_eq!(cache.get(&"a@example.org".to_string()), Some("t1".to_string()));
    assert_eq!(cache.get(&"b@example.org".to_string()), Some("t2".to_string()));
    cache.set("a@example.org".to_string(), "t3".to_string());
    assert_eq!(cache.get(&"a@example.org".to_string()), Some("t3".to_string()));
    assert_eq!(cache.get(&"b@example.org".to_string()), Some("t2".to_string()));
    assert_eq!(cache.get(&"c@example.org".to_string()), None);
}

#[test]
fn scalable_valuation_logs_in_once_and_reuses_the_token() {
    let mut cache = ScalableCache::new();
    let account = ScalableAccount {
        name: "Depot".to_string(),
        email: "a@example.org".to_string(),
        password: "secret".to_string(),
    };
    let (mut session, action) = get_assets_of_scalable_account(&cache, &account);
    assert!(is_login(&action));
    let action = logged_in(&mut session, &mut cache, &account, "t1".to_string());
    assert_eq!(token_of(&action), "t1");
    assert_eq!(cache.get(&"a@example.org".to_string()), Some("t1".to_string()));
    session.fetched();
    let (_, again) = get_assets_of_scalable_account(&cache, &account);
    assert_eq!(token_of(&again), "t1");
}

#[test]
fn scalable_holdings_are_stocks_and_crypto() {
    let assets = get_assets(&"Depot".to_string(), dec("1500.25"), dec("99.5"), dec("1.08"));
    assert_eq!(assets.len(), 2);
    assert_eq!(assets[0].get_name(), "Stocks on Scalable");
    assert_eq!(assets[0].get_description(), "Depot | Stocks");
    assert_eq!(assets[0].get_units(), dec("1500.25"));
    assert_eq!(assets[0].get_unit_price(), dec("1.08"));
    assert_eq!(assets[1].get_name(), "Crypto on Scalable");
    assert_eq!(assets[1].get_description(), "Depot | Crypto");
    assert_eq!(assets[1].get_units(), dec("99.5"));
    assert_eq!(assets[1].get_growth().get_nominal_growth(), dec("0"));
}
