use get_rich_slow::account::Account;
use get_rich_slow::blockchain::EthDefiToken;
use get_rich_slow::config::{Account as StatedAccount, Configuration, Fund as StatedFund};
use get_rich_slow::decimal::Decimal;
use get_rich_slow::domainconfig::{
    account_from_config, blockchain_identifier_to_enum, hex_to_address, known_blockchain,
    known_platform, parse_address, DomainConfig,
};
use get_rich_slow::error::ErrorKind;
use get_rich_slow::ethereum::{Address, EthereumChain};

fn stated(kind: &str) -> StatedAccount {
    StatedAccount {
        kind: kind.to_string(),
        api_key: None,
        api_secret: None,
        address: None,
        refresh_token: None,
        account_id: None,
    }
}

fn stated_wallet(kind: &str, address: &str) -> StatedAccount {
    let mut account = stated(kind);
    account.address = Some(address.to_string());
    account
}

fn stated_kraken(key: &str, secret: &str) -> StatedAccount {
    let mut account = stated("kraken");
    account.api_key = Some(key.to_string());
    account.api_secret = Some(secret.to_string());
    account
}

fn example() -> Configuration {
    Configuration {
        accounts: vec![
            (
                "wallet".to_string(),
                stated_wallet("bsc", "7c9e73d4c71dae564d41f78d56439bb4ba87592f"),
            ),
            ("exchange".to_string(), stated_kraken("key", "secret")),
            (
                "snow".to_string(),
                stated_wallet("avalanche-c", "000102030405060708090A0B0C0D0E0F10111213"),
            ),
        ],
        funds: vec![
            StatedFund {
                name: "Savings".to_string(),
                icon: Some("piggy".to_string()),
                accounts: vec!["exchange".to_string(), "wallet".to_string()],
                target_size: Some(Decimal::from_raw(50_000_000_000_000)),
            },
            StatedFund {
                name: "Play".to_string(),
                icon: None,
                accounts: vec!["snow".to_string()],
                target_size: None,
            },
        ],
        smart_contracts: vec![
            (
                "bsc".to_string(),
                vec![
                    (
                        "venus".to_string(),
                        vec![
                            "1111111111111111111111111111111111111111".to_string(),
                            "2222222222222222222222222222222222222222".to_string(),
                        ],
                    ),
                    (
                        "alpaca".to_string(),
                        vec!["3333333333333333333333333333333333333333".to_string()],
                    ),
                ],
            ),
            (
                "avalanche-c".to_string(),
                vec![(
                    "benqi".to_string(),
                    vec!["4444444444444444444444444444444444444444".to_string()],
                )],
            ),
        ],
        nodes: vec![
            ("bsc".to_string(), "https://bsc.example".to_string()),
            ("avalanche-c".to_string(), "https://avax.example".to_string()),
        ],
        clients: Some(vec!["127.0.0.1".to_string()]),
        port: 8123,
        nordigen_cache_hours: Some(6),
        listen_address: "0.0.0.0".to_string(),
    }
}

#[test]
fn test_hex_string_parsing() {
    assert_eq!(
        Address {
            bytes: [
                0x7c, 0x9e, 0x73, 0xd4, 0xc7, 0x1d, 0xae, 0x56, 0x4d, 0x41, 0xf7, 0x8d, 0x56, 0x43,
                0x9b, 0xb4, 0xba, 0x87, 0x59, 0x2f
            ]
        },
        hex_to_address(&"7c9e73d4c71dae564d41f78d56439bb4ba87592f".to_string())
    )
}

#[test]
fn addresses_in_either_case() {
    let lower = parse_address("00ff10abcdef0123456789abcdefabcdef012345").unwrap();
    let upper = parse_address("00FF10ABCDEF0123456789ABCDEFABCDEF012345").unwrap();
    assert_eq!(lower, upper);
    assert_eq!(lower.bytes[0], 0x00);
    assert_eq!(lower.bytes[1], 0xff);
    assert_eq!(lower.bytes[2], 0x10);
    assert_eq!(lower.bytes[19], 0x45);
}

#[test]
fn texts_that_write_no_address() {
    assert_eq!(parse_address(""), None);
    assert_eq!(parse_address("7c9e73d4c71dae564d41f78d56439bb4ba87592"), None);
    assert_eq!(parse_address("7c9e73d4c71dae564d41f78d56439bb4ba87592f0"), None);
    assert_eq!(parse_address("7c9e73d4c71dae564d41f78d56439bb4ba87592f00"), None);
    assert_eq!(parse_address("0x7c9e73d4c71dae564d41f78d56439bb4ba8759"), None);
    assert_eq!(parse_address("7c9e73d4c71dae564d41f78d56439bb4ba87592g"), None);
    assert_eq!(parse_address("7c9e73d4c71dae564d41f78d56439bb4ba8759é"), None);
}

#[test]
fn chains_by_identifier() {
    assert_eq!(blockchain_identifier_to_enum("bsc"), EthereumChain::BinanceSmartChain);
    assert_eq!(blockchain_identifier_to_enum("avalanche-c"), EthereumChain::AvalancheC);
    assert_eq!(blockchain_identifier_to_enum("ethereum"), EthereumChain::Ethereum);
    assert_eq!(blockchain_identifier_to_enum("moonriver"), EthereumChain::Moonriver);
    assert_eq!(blockchain_identifier_to_enum("moonbeam"), EthereumChain::Moonbeam);
    assert_eq!(known_blockchain("BSC"), None);
    assert_eq!(known_blockchain("eth"), None);
    assert_eq!(known_blockchain(""), None);
}

#[test]
fn protocols_by_name() {
    assert_eq!(known_platform("bep20"), Some(EthDefiToken::Bep20));
    assert_eq!(known_platform("alpaca"), Some(EthDefiToken::Alpaca));
    assert_eq!(known_platform("venus"), Some(EthDefiToken::Venus));
    assert_eq!(known_platform("benqi"), Some(EthDefiToken::Benqi));
    assert_eq!(known_platform("aave"), None);
}

#[test]
fn accounts_by_kind() {
    let name = "mine".to_string();
    let wallet = stated_wallet("moonbeam", "7c9e73d4c71dae564d41f78d56439bb4ba87592f");
    match account_from_config(&name, &wallet).ok().unwrap() {
        Account::Ethereum(account) => {
            assert_eq!(account.name, "mine");
            assert_eq!(account.chain, EthereumChain::Moonbeam);
            assert_eq!(account.wallet_address.bytes[0], 0x7c);
        }
        _ => panic!("no wallet"),
    }
    match account_from_config(&name, &stated_kraken("k", "s")).ok().unwrap() {
        Account::Kraken(account) => {
            assert_eq!(account.name, "mine");
            assert_eq!(account.api_key, "k");
            assert_eq!(account.api_secret, "s");
        }
        _ => panic!("no exchange account"),
    }
}

#[test]
fn accounts_that_cannot_be_used() {
    let name = "mine".to_string();
    let unknown = account_from_config(&name, &stated("etoro")).err().unwrap();
    assert_eq!(unknown.get_kind(), ErrorKind::Configuration);
    assert_eq!(unknown.get_message(), "Invalid account type: etoro");
    assert!(account_from_config(&name, &stated("bsc")).is_err());
    assert!(account_from_config(&name, &stated_wallet("bsc", "12")).is_err());
    assert!(account_from_config(&name, &stated("kraken")).is_err());
    let mut half = stated("kraken");
    half.api_key = Some("k".to_string());
    assert!(account_from_config(&name, &half).is_err());
}

#[test]
fn configuration_becomes_the_domain() {
    let domain = DomainConfig::from_config(example()).ok().unwrap();
    assert_eq!(domain.port, 8123);
    assert_eq!(domain.listen_address, "0.0.0.0");
    assert_eq!(domain.client_whitelist, Some(vec!["127.0.0.1".to_string()]));
    assert_eq!(domain.funds.len(), 2);
    assert_eq!(domain.funds[0].name, "Savings");
    assert_eq!(domain.funds[0].icon, Some("piggy".to_string()));
    assert_eq!(domain.funds[0].target_size, Some(Decimal::from_raw(50_000_000_000_000)));
    assert_eq!(domain.funds[0].accounts.len(), 2);
    assert!(matches!(&domain.funds[0].accounts[0], Account::Kraken(a) if a.name == "exchange"));
    assert!(matches!(&domain.funds[0].accounts[1], Account::Ethereum(a) if a.name == "wallet"
        && a.chain == EthereumChain::BinanceSmartChain && a.wallet_address.bytes[0] == 0x7c));
    assert_eq!(domain.funds[1].name, "Play");
    assert_eq!(domain.funds[1].icon, None);
    assert!(matches!(&domain.funds[1].accounts[0], Account::Ethereum(a) if a.name == "snow"
        && a.chain == EthereumChain::AvalancheC && a.wallet_address.bytes[10] == 0x0a));
    assert_eq!(
        domain.smart_contracts,
        vec![
            (EthereumChain::BinanceSmartChain, EthDefiToken::Venus, Address { bytes: [0x11; 20] }),
            (EthereumChain::BinanceSmartChain, EthDefiToken::Venus, Address { bytes: [0x22; 20] }),
            (EthereumChain::BinanceSmartChain, EthDefiToken::Alpaca, Address { bytes: [0x33; 20] }),
            (EthereumChain::AvalancheC, EthDefiToken::Benqi, Address { bytes: [0x44; 20] }),
        ]
    );
    assert_eq!(domain.eth_nodes.len(), 2);
    assert_eq!(domain.eth_nodes[0].chain, EthereumChain::BinanceSmartChain);
    assert_eq!(domain.eth_nodes[0].url, "https://bsc.example");
    assert_eq!(domain.eth_nodes[1].chain, EthereumChain::AvalancheC);
    assert_eq!(domain.eth_nodes[1].url, "https://avax.example");
}

#[test]
fn later_statement_of_an_account_counts() {
    let mut config = example();
    config.accounts.push(("wallet".to_string(), stated_kraken("k2", "s2")));
    let domain = DomainConfig::from_config(config).ok().unwrap();
    assert!(matches!(&domain.funds[0].accounts[1], Account::Kraken(a) if a.api_key == "k2"));
}

#[test]
fn fund_with_an_unknown_account_is_refused() {
    let mut config = example();
    config.funds[1].accounts.push("nowhere".to_string());
    let e = DomainConfig::from_config(config).err().unwrap();
    assert_eq!(e.get_kind(), ErrorKind::Configuration);
    assert_eq!(e.get_message(), "Account with identifier nowhere not found");
}

#[test]
fn unusable_account_is_refused_even_when_no_fund_lists_it() {
    let mut config = example();
    config.accounts.push(("spare".to_string(), stated("etoro")));
    let e = DomainConfig::from_config(config).err().unwrap();
    assert_eq!(e.get_kind(), ErrorKind::Configuration);
}

#[test]
fn unknown_chain_protocol_or_bad_address_is_refused() {
    let mut config = example();
    config.smart_contracts[0].0 = "solana".to_string();
    let e = DomainConfig::from_config(config).err().unwrap();
    assert_eq!(e.get_kind(), ErrorKind::Configuration);
    assert_eq!(e.get_message(), "Unexpected blockchain identifier: solana");
    let mut config = example();
    config.smart_contracts[0].1[1].0 = "aave".to_string();
    let e = DomainConfig::from_config(config).err().unwrap();
    assert_eq!(e.get_message(), "Unexpected DeFi platform identifier: aave");
    let mut config = example();
    config.smart_contracts[1].1[0].1[0] = "44".to_string();
    let e = DomainConfig::from_config(config).err().unwrap();
    assert_eq!(e.get_kind(), ErrorKind::Configuration);
    let mut config = example();
    config.nodes[1].0 = "avax".to_string();
    let e = DomainConfig::from_config(config).err().unwrap();
    assert_eq!(e.get_message(), "Unexpected blockchain identifier: avax");
}

#[test]
fn empty_configuration_is_an_empty_domain() {
    let config = Configuration {
        accounts: Vec::new(),
        funds: Vec::new(),
        smart_contracts: Vec::new(),
        nodes: Vec::new(),
        clients: None,
        port: 1,
        nordigen_cache_hours: None,
        listen_address: String::new(),
    };
    let domain = DomainConfig::from_config(config).ok().unwrap();
    assert_eq!(domain.funds.len(), 0);
    assert_eq!(domain.smart_contracts.len(), 0);
    assert_eq!(domain.eth_nodes.len(), 0);
    assert_eq!(domain.client_whitelist, None);
}

#[test]
fn first_thing_wrong_with_a_configuration_is_named() {
    let mut config = example();
    config.accounts.push(("spare".to_string(), stated("etoro")));
    config.funds[0].accounts.push("nowhere".to_string());
    config.nodes[0].0 = "solana".to_string();
    let e = DomainConfig::from_config(config).err().unwrap();
    assert_eq!(e.get_message(), "Invalid account type: etoro");
    let mut config = example();
    config.funds[1].accounts.insert(0, "first".to_string());
    config.funds[1].accounts.push("second".to_string());
    config.smart_contracts[0].1[0].1[1] = "zz".to_string();
    let e = DomainConfig::from_config(config).err().unwrap();
    assert_eq!(e.get_message(), "Account with identifier first not found");
    let mut config = example();
    config.smart_contracts[0].1[0].1[1] = "zz".to_string();
    config.smart_contracts[1].0 = "solana".to_string();
    config.nodes[0].0 = "terra".to_string();
    let e = DomainConfig::from_config(config).err().unwrap();
    assert_eq!(e.get_message(), "Invalid address: zz");
    let name = "mine".to_string();
    let e = account_from_config(&name, &stated("bsc")).err().unwrap();
    assert_eq!(e.get_message(), "Account requires address: mine");
    let e = account_from_config(&name, &stated_wallet("bsc", "12")).err().unwrap();
    assert_eq!(e.get_message(), "Invalid address: 12");
    let e = account_from_config(&name, &stated("kraken")).err().unwrap();
    assert_eq!(e.get_message(), "Kraken requires api-key and api-secret: mine");
}
