use vstd::prelude::*;
use vstd::pervasive::unreached;
use vstd::string::StringExecFns;
use crate::account::{Account, EthereumAccount, KrakenAccount};
use crate::blockchain::EthDefiToken;
use crate::config::Configuration;
use crate::decimal::Decimal;
use crate::error::{ApiError, ErrorKind};
use crate::gather::{
    first_failure, lemma_first_failure_at, lemma_first_failure_is_none, lemma_first_failure_none,
};
use crate::ethereum::{Address, EthereumChain, EthereumNode};
use crate::table::{lookup, Table};
use crate::text::{decode_hex_of_twenty_bytes, hex_byte_at, is_hex_of_twenty_bytes, str_eq};

verus! {

/// A group of accounts that are valued and reported together.
pub struct Fund {
    pub name: String,
    pub icon: Option<String>,
    pub accounts: Vec<Account>,
    pub target_size: Option<Decimal>,
}

/// All that a valuation works from. It is built once and read from then on.
pub struct DomainConfig {
    pub funds: Vec<Fund>,
    pub smart_contracts: Vec<(EthereumChain, EthDefiToken, Address)>,
    pub eth_nodes: Vec<EthereumNode>,
    pub client_whitelist: Option<Vec<String>>,
    pub port: u16,
    pub listen_address: String,
}

/// Whether an address holds the bytes that a text writes in hexadecimal.
pub open spec fn address_written(text: Seq<char>, address: Address) -> bool {
    forall|i: int| 0 <= i < 20 ==> #[trigger] address.bytes@[i] == hex_byte_at(text, i)
}

/// The address that forty hexadecimal digits write, or `None` for any other
/// text.
pub fn parse_address(hex: &str) -> (address: Option<Address>)
    ensures
        match address {
            Some(address) => is_hex_of_twenty_bytes(hex@) && address_written(hex@, address),
            None => !is_hex_of_twenty_bytes(hex@),
        },
{
    match decode_hex_of_twenty_bytes(hex) {
        Some(bytes) => Some(Address { bytes }),
        None => None,
    }
}

/// The address that forty hexadecimal digits write.
pub fn hex_to_address(hex: &String) -> (address: Address)
    requires
        is_hex_of_twenty_bytes(hex@),
    ensures
        address_written(hex@, address),
{
    match parse_address(hex.as_str()) {
        Some(address) => address,
        None => unreached(),
    }
}

/// The chain that the configuration file means by an identifier.
pub open spec fn chain_named(identifier: Seq<char>) -> Option<EthereumChain> {
    if identifier == "bsc"@ {
        Some(EthereumChain::BinanceSmartChain)
    } else if identifier == "avalanche-c"@ {
        Some(EthereumChain::AvalancheC)
    } else if identifier == "ethereum"@ {
        Some(EthereumChain::Ethereum)
    } else if identifier == "moonriver"@ {
        Some(EthereumChain::Moonriver)
    } else if identifier == "moonbeam"@ {
        Some(EthereumChain::Moonbeam)
    } else {
        None
    }
}

/// The chain that the configuration file means by an identifier, if it
/// means one.
pub fn known_blockchain(identifier: &str) -> (chain: Option<EthereumChain>)
    ensures
        chain == chain_named(identifier@),
{
    if str_eq(identifier, "bsc") {
        Some(EthereumChain::BinanceSmartChain)
    } else if str_eq(identifier, "avalanche-c") {
        Some(EthereumChain::AvalancheC)
    } else if str_eq(identifier, "ethereum") {
        Some(EthereumChain::Ethereum)
    } else if str_eq(identifier, "moonriver") {
        Some(EthereumChain::Moonriver)
    } else if str_eq(identifier, "moonbeam") {
        Some(EthereumChain::Moonbeam)
    } else {
        None
    }
}

/// The chain that the configuration file means by an identifier.
pub fn blockchain_identifier_to_enum(identifier: &str) -> (chain: EthereumChain)
    requires
        chain_named(identifier@) is Some,
    ensures
        Some(chain) == chain_named(identifier@),
{
    match known_blockchain(identifier) {
        Some(chain) => chain,
        None => unreached(),
    }
}

/// The protocol that the configuration file means by a name.
pub open spec fn platform_named(name: Seq<char>) -> Option<EthDefiToken> {
    if name == "bep20"@ {
        Some(EthDefiToken::Bep20)
    } else if name == "alpaca"@ {
        Some(EthDefiToken::Alpaca)
    } else if name == "venus"@ {
        Some(EthDefiToken::Venus)
    } else if name == "benqi"@ {
        Some(EthDefiToken::Benqi)
    } else {
        None
    }
}

/// The protocol that the configuration file means by a name, if it means one.
pub fn known_platform(name: &str) -> (platform: Option<EthDefiToken>)
    ensures
        platform == platform_named(name@),
{
    if str_eq(name, "bep20") {
        Some(EthDefiToken::Bep20)
    } else if str_eq(name, "alpaca") {
        Some(EthDefiToken::Alpaca)
    } else if str_eq(name, "venus") {
        Some(EthDefiToken::Venus)
    } else if str_eq(name, "benqi") {
        Some(EthDefiToken::Benqi)
    } else {
        None
    }
}

/// The chain of the wallets of a kind of account, for the kinds that are
/// wallets.
pub open spec fn wallet_chain(kind: Seq<char>) -> Option<EthereumChain> {
    if kind == "bsc"@ {
        Some(EthereumChain::BinanceSmartChain)
    } else if kind == "avalanche-c"@ {
        Some(EthereumChain::AvalancheC)
    } else if kind == "moonbeam"@ {
        Some(EthereumChain::Moonbeam)
    } else {
        None
    }
}

/// Whether an account of the configuration file can be used: a wallet needs
/// an address of forty hexadecimal digits, an account at Kraken its key and
/// its secret, and there are no other kinds.
pub open spec fn usable(entry: crate::config::Account) -> bool {
    if wallet_chain(entry.kind@) is Some {
        entry.address matches Some(address) && is_hex_of_twenty_bytes(address@)
    } else if entry.kind@ == "kraken"@ {
        entry.api_key is Some && entry.api_secret is Some
    } else {
        false
    }
}

/// What is wrong with an account of the configuration file stated under
/// `name`, if anything is.
pub open spec fn account_failure(name: Seq<char>, entry: crate::config::Account) -> Option<
    Seq<char>,
> {
    if wallet_chain(entry.kind@) is Some {
        match entry.address {
            None => Some("Account requires address: "@ + name),
            Some(address) => if is_hex_of_twenty_bytes(address@) {
                None
            } else {
                Some("Invalid address: "@ + address@)
            },
        }
    } else if entry.kind@ == "kraken"@ {
        if entry.api_key is Some && entry.api_secret is Some {
            None
        } else {
            Some("Kraken requires api-key and api-secret: "@ + name)
        }
    } else {
        Some("Invalid account type: "@ + entry.kind@)
    }
}

/// What is wrong with each account of the configuration file, in order.
pub open spec fn account_failures(entries: Seq<(String, crate::config::Account)>) -> Seq<
    Option<Seq<char>>,
> {
    Seq::new(entries.len(), |i: int| account_failure(entries[i].0@, entries[i].1))
}

/// What is wrong with a name that a fund lists: that no account is stated
/// under it.
pub open spec fn name_failure(
    entries: Seq<(String, crate::config::Account)>,
    name: Seq<char>,
) -> Option<Seq<char>> {
    if lookup(entries, name) is Some {
        None
    } else {
        Some("Account with identifier "@ + name + " not found"@)
    }
}

/// What is wrong with each name that a fund lists, in order.
pub open spec fn name_failures(
    entries: Seq<(String, crate::config::Account)>,
    names: Seq<String>,
) -> Seq<Option<Seq<char>>> {
    Seq::new(names.len(), |j: int| name_failure(entries, names[j]@))
}

/// What is wrong with each fund of the configuration file, in order: the
/// first of its names without an account.
pub open spec fn fund_failures(
    entries: Seq<(String, crate::config::Account)>,
    funds: Seq<crate::config::Fund>,
) -> Seq<Option<Seq<char>>> {
    Seq::new(
        funds.len(),
        |f: int| first_failure(name_failures(entries, funds[f].accounts@)),
    )
}

/// What is wrong with an address, if anything is.
pub open spec fn address_failure(address: Seq<char>) -> Option<Seq<char>> {
    if is_hex_of_twenty_bytes(address) {
        None
    } else {
        Some("Invalid address: "@ + address)
    }
}

/// What is wrong with each address of a list, in order.
pub open spec fn address_failures(addresses: Seq<String>) -> Seq<Option<Seq<char>>> {
    Seq::new(addresses.len(), |a: int| address_failure(addresses[a]@))
}

/// What is wrong with the contracts stated for one protocol: the protocol is
/// unknown, or else the first of its addresses that is badly written.
pub open spec fn platform_failure(platform: (String, Vec<String>)) -> Option<Seq<char>> {
    if platform_named(platform.0@) is None {
        Some("Unexpected DeFi platform identifier: "@ + platform.0@)
    } else {
        first_failure(address_failures(platform.1@))
    }
}

/// What is wrong with the contracts stated for each protocol, in order.
pub open spec fn platform_failures(platforms: Seq<(String, Vec<String>)>) -> Seq<
    Option<Seq<char>>,
> {
    Seq::new(platforms.len(), |p: int| platform_failure(platforms[p]))
}

/// What is wrong with the contracts stated for one chain: the chain is
/// unknown, or else what is wrong with the first of its protocols that has
/// something wrong.
pub open spec fn chain_failure(chain: (String, Vec<(String, Vec<String>)>)) -> Option<Seq<char>> {
    if chain_named(chain.0@) is None {
        Some("Unexpected blockchain identifier: "@ + chain.0@)
    } else {
        first_failure(platform_failures(chain.1@))
    }
}

/// What is wrong with the contracts stated for each chain, in order.
pub open spec fn chain_failures(chains: Seq<(String, Vec<(String, Vec<String>)>)>) -> Seq<
    Option<Seq<char>>,
> {
    Seq::new(chains.len(), |c: int| chain_failure(chains[c]))
}

/// What is wrong with a node: that it is stated for an unknown chain.
pub open spec fn node_failure(node: (String, String)) -> Option<Seq<char>> {
    if chain_named(node.0@) is None {
        Some("Unexpected blockchain identifier: "@ + node.0@)
    } else {
        None
    }
}

/// What is wrong with each node, in order.
pub open spec fn node_failures(nodes: Seq<(String, String)>) -> Seq<Option<Seq<char>>> {
    Seq::new(nodes.len(), |n: int| node_failure(nodes[n]))
}

/// What is wrong with a configuration file, if anything is: the first thing
/// that is wrong with its accounts, else with its funds, else with its
/// contracts, else with its nodes.
pub open spec fn config_failure(config: Configuration) -> Option<Seq<char>> {
    match first_failure(account_failures(config.accounts@)) {
        Some(message) => Some(message),
        None => match first_failure(fund_failures(config.accounts@, config.funds@)) {
            Some(message) => Some(message),
            None => match first_failure(chain_failures(config.smart_contracts@)) {
                Some(message) => Some(message),
                None => first_failure(node_failures(config.nodes@)),
            },
        },
    }
}

/// Whether `account` is the account that the configuration file states under
/// `name`.
pub open spec fn describes(entry: crate::config::Account, name: Seq<char>, account: Account) -> bool {
    if wallet_chain(entry.kind@) is Some {
        &&& account matches Account::Ethereum(wallet)
        &&& wallet.name@ == name
        &&& Some(wallet.chain) == wallet_chain(entry.kind@)
        &&& entry.address matches Some(address)
        &&& address_written(address@, wallet.wallet_address)
    } else if entry.kind@ == "kraken"@ {
        &&& account matches Account::Kraken(kraken)
        &&& kraken.name@ == name
        &&& entry.api_key matches Some(key)
        &&& kraken.api_key@ == key@
        &&& entry.api_secret matches Some(secret)
        &&& kraken.api_secret@ == secret@
    } else {
        false
    }
}

/// The chain of the wallets of a kind of account.
fn chain_of_wallets(kind: &str) -> (chain: Option<EthereumChain>)
    ensures
        chain == wallet_chain(kind@),
{
    if str_eq(kind, "bsc") {
        Some(EthereumChain::BinanceSmartChain)
    } else if str_eq(kind, "avalanche-c") {
        Some(EthereumChain::AvalancheC)
    } else if str_eq(kind, "moonbeam") {
        Some(EthereumChain::Moonbeam)
    } else {
        None
    }
}

/// The account that the configuration file states under `name`.
pub fn account_from_config(name: &String, entry: &crate::config::Account) -> (r: Result<
    Account,
    ApiError,
>)
    ensures
        usable(*entry) ==> (r matches Ok(account) && describes(*entry, name@, account)),
        !usable(*entry) ==> (r matches Err(e) && e.kind() == ErrorKind::Configuration),
        usable(*entry) <==> account_failure(name@, *entry) is None,
        r matches Err(e) ==> Some(e.message()) == account_failure(name@, *entry),
{
    match chain_of_wallets(entry.kind.as_str()) {
        Some(chain) => {
            let address = match &entry.address {
                Some(address) => address,
                None => {
                    return Err(
                        ApiError::describe(
                            ErrorKind::Configuration,
                            "Account requires address: ",
                            name.as_str(),
                        ),
                    );
                },
            };
            match parse_address(address.as_str()) {
                Some(wallet_address) => Ok(
                    Account::Ethereum(EthereumAccount { name: name.clone(), chain, wallet_address }),
                ),
                None => Err(
                    ApiError::describe(
                        ErrorKind::Configuration,
                        "Invalid address: ",
                        address.as_str(),
                    ),
                ),
            }
        },
        None => {
            if str_eq(entry.kind.as_str(), "kraken") {
                match (&entry.api_key, &entry.api_secret) {
                    (Some(api_key), Some(api_secret)) => Ok(
                        Account::Kraken(
                            KrakenAccount {
                                name: name.clone(),
                                api_key: api_key.clone(),
                                api_secret: api_secret.clone(),
                            },
                        ),
                    ),
                    _ => Err(
                        ApiError::describe(
                            ErrorKind::Configuration,
                            "Kraken requires api-key and api-secret: ",
                            name.as_str(),
                        ),
                    ),
                }
            } else {
                Err(
                    ApiError::describe(
                        ErrorKind::Configuration,
                        "Invalid account type: ",
                        entry.kind.as_str(),
                    ),
                )
            }
        },
    }
}

/// What an optional text holds.
pub open spec fn text_of(text: Option<String>) -> Option<Seq<char>> {
    match text {
        Some(text) => Some(text@),
        None => None,
    }
}

/// Whether `table` holds, under each name, the account that the configuration
/// file states under it. Where the file states a name twice the later
/// statement counts.
pub open spec fn accounts_described(
    entries: Seq<(String, crate::config::Account)>,
    table: Table<Account>,
) -> bool {
    forall|name: Seq<char>|
        match #[trigger] lookup(entries, name) {
            Some(entry) => table.value_at(name) matches Some(account) && describes(
                entry,
                name,
                account,
            ),
            None => table.value_at(name) is None,
        }
}

/// The accounts of the configuration file by name.
fn accounts_from_config(entries: &Vec<(String, crate::config::Account)>) -> (r: Result<
    Table<Account>,
    ApiError,
>)
    ensures
        (forall|i: int| 0 <= i < entries@.len() ==> usable((#[trigger] entries@[i]).1)) ==> (r matches Ok(
            table,
        ) && table.wf() && accounts_described(entries@, table)),
        !(forall|i: int| 0 <= i < entries@.len() ==> usable((#[trigger] entries@[i]).1)) ==> (
        r matches Err(e) && e.kind() == ErrorKind::Configuration),
        match r {
            Ok(_) => first_failure(account_failures(entries@)) is None,
            Err(e) => first_failure(account_failures(entries@)) == Some(e.message()),
        },
{
    let mut table: Table<Account> = Table::new();
    let mut i: usize = 0;
    assert(entries@.take(0) =~= Seq::empty());
    while i < entries.len()
        invariant
            i <= entries.len(),
            table.wf(),
            accounts_described(entries@.take(i as int), table),
            forall|j: int| 0 <= j < i ==> usable((#[trigger] entries@[j]).1),
        decreases entries.len() - i,
    {
        let ghost before = table;
        let account = match account_from_config(&entries[i].0, &entries[i].1) {
            Ok(account) => account,
            Err(e) => {
                assert(!usable(entries@[i as int].1));
                proof {
                    let failures = account_failures(entries@);
                    assert forall|j: int| 0 <= j < i implies (#[trigger] failures[j]) is None by {
                        assert(usable(entries@[j].1));
                    }
                    lemma_first_failure_at(failures, i as int);
                }
                return Err(e);
            },
        };
        table.insert(entries[i].0.clone(), account);
        proof {
            let grown = entries@.take(i + 1);
            assert(grown.drop_last() =~= entries@.take(i as int));
            assert(grown.last() == entries@[i as int]);
            assert forall|name: Seq<char>|
                match #[trigger] lookup(grown, name) {
                    Some(entry) => table.value_at(name) matches Some(account) && describes(
                        entry,
                        name,
                        account,
                    ),
                    None => table.value_at(name) is None,
                } by {
                if name != entries@[i as int].0@ {
                    assert(lookup(grown, name) == lookup(entries@.take(i as int), name));
                    assert(table.value_at(name) == before.value_at(name));
                }
            }
        }
        i = i + 1;
    }
    assert(entries@.take(i as int) =~= entries@);
    proof {
        let failures = account_failures(entries@);
        assert forall|j: int| 0 <= j < failures.len() implies (#[trigger] failures[j]) is None by {
            assert(usable(entries@[j].1));
        }
        lemma_first_failure_none(failures);
    }
    Ok(table)
}

/// Whether the configuration file states an account under each name that a
/// fund lists.
pub open spec fn fund_resolvable(
    entries: Seq<(String, crate::config::Account)>,
    source: crate::config::Fund,
) -> bool {
    forall|j: int|
        0 <= j < source.accounts@.len() ==> lookup(entries, (#[trigger] source.accounts@[j])@) is Some
}

/// Whether `fund` is the fund that the configuration file states: the same
/// name, icon and target size, and in place of each account's name the account.
pub open spec fn fund_described(
    entries: Seq<(String, crate::config::Account)>,
    source: crate::config::Fund,
    fund: Fund,
) -> bool {
    &&& fund.name@ == source.name@
    &&& text_of(fund.icon) == text_of(source.icon)
    &&& fund.target_size == source.target_size
    &&& fund.accounts@.len() == source.accounts@.len()
    &&& forall|j: int|
        0 <= j < source.accounts@.len() ==> (lookup(
            entries,
            (#[trigger] source.accounts@[j])@,
        ) matches Some(entry) && describes(entry, source.accounts@[j]@, fund.accounts@[j]))
}

/// A copy of an optional text.
fn copy_of(text: &Option<String>) -> (copy: Option<String>)
    ensures
        text_of(copy) == text_of(*text),
{
    match text {
        Some(text) => Some(text.clone()),
        None => None,
    }
}

/// The fund that the configuration file states, with the accounts that it
/// lists by name.
fn fund_from_config(
    table: &Table<Account>,
    source: &crate::config::Fund,
    Ghost(entries): Ghost<Seq<(String, crate::config::Account)>>,
) -> (r: Result<Fund, ApiError>)
    requires
        table.wf(),
        accounts_described(entries, *table),
    ensures
        fund_resolvable(entries, *source) ==> (r matches Ok(fund) && fund_described(
            entries,
            *source,
            fund,
        )),
        !fund_resolvable(entries, *source) ==> (r matches Err(e) && e.kind()
            == ErrorKind::Configuration),
        match r {
            Ok(_) => first_failure(name_failures(entries, source.accounts@)) is None,
            Err(e) => first_failure(name_failures(entries, source.accounts@)) == Some(e.message()),
        },
{
    let mut accounts: Vec<Account> = Vec::new();
    let mut j: usize = 0;
    while j < source.accounts.len()
        invariant
            j <= source.accounts.len(),
            table.wf(),
            accounts_described(entries, *table),
            accounts@.len() == j,
            forall|k: int|
                0 <= k < j ==> (lookup(entries, (#[trigger] source.accounts@[k])@) matches Some(
                    entry,
                ) && describes(entry, source.accounts@[k]@, accounts@[k])),
        decreases source.accounts.len() - j,
    {
        let name = &source.accounts[j];
        proof {
            let _ = lookup(entries, name@);
        }
        match table.get(name.as_str()) {
            Some(account) => {
                accounts.push(account.clone());
            },
            None => {
                assert(lookup(entries, source.accounts@[j as int]@) is None);
                let mut text = String::from_str("Account with identifier ");
                text.append(name.as_str());
                text.append(" not found");
                proof {
                    let failures = name_failures(entries, source.accounts@);
                    assert forall|k: int| 0 <= k < j implies (#[trigger] failures[k]) is None by {
                        let _ = source.accounts@[k];
                    }
                    lemma_first_failure_at(failures, j as int);
                }
                return Err(ApiError::with_kind(ErrorKind::Configuration, text));
            },
        }
        j = j + 1;
    }
    proof {
        let failures = name_failures(entries, source.accounts@);
        assert forall|k: int| 0 <= k < failures.len() implies (#[trigger] failures[k]) is None by {
            let _ = source.accounts@[k];
        }
        lemma_first_failure_none(failures);
    }
    Ok(
        Fund {
            name: source.name.clone(),
            icon: copy_of(&source.icon),
            accounts,
            target_size: source.target_size,
        },
    )
}

/// One registered contract as the configuration file states it: its chain,
/// its protocol, and its address in hexadecimal.
pub type StatedContract = (EthereumChain, EthDefiToken, Seq<char>);

/// The contracts of one protocol on one chain, in the order of their addresses.
pub open spec fn platform_entries(
    chain: EthereumChain,
    platform: EthDefiToken,
    addresses: Seq<String>,
) -> Seq<StatedContract> {
    Seq::new(addresses.len(), |i: int| (chain, platform, addresses[i]@))
}

/// The contracts of one chain: those of its first protocol, then those of
/// the next, and so on.
pub open spec fn chain_entries(chain: EthereumChain, platforms: Seq<(String, Vec<String>)>) -> Seq<
    StatedContract,
>
    decreases platforms.len(),
{
    if platforms.len() == 0 {
        Seq::empty()
    } else {
        chain_entries(chain, platforms.drop_last()) + platform_entries(
            chain,
            platform_named(platforms.last().0@)->0,
            platforms.last().1@,
        )
    }
}

/// The contracts of all chains: those of the first chain, then those of the
/// next, and so on.
pub open spec fn registry_entries(chains: Seq<(String, Vec<(String, Vec<String>)>)>) -> Seq<
    StatedContract,
>
    decreases chains.len(),
{
    if chains.len() == 0 {
        Seq::empty()
    } else {
        registry_entries(chains.drop_last()) + chain_entries(
            chain_named(chains.last().0@)->0,
            chains.last().1@,
        )
    }
}

/// Whether the configuration file's contracts of one chain can be used: each
/// protocol is known and each address is forty hexadecimal digits.
pub open spec fn chain_valid(platforms: Seq<(String, Vec<String>)>) -> bool {
    forall|p: int|
        0 <= p < platforms.len() ==> {
            &&& platform_named((#[trigger] platforms[p]).0@) is Some
            &&& forall|a: int|
                0 <= a < platforms[p].1@.len() ==> is_hex_of_twenty_bytes(
                    (#[trigger] platforms[p].1@[a])@,
                )
        }
}

/// Whether the configuration file's contracts can be used: each chain is
/// known, and so is each protocol, and each address is forty hexadecimal digits.
pub open spec fn registry_valid(chains: Seq<(String, Vec<(String, Vec<String>)>)>) -> bool {
    forall|c: int|
        0 <= c < chains.len() ==> chain_named((#[trigger] chains[c]).0@) is Some && chain_valid(
            chains[c].1@,
        )
}

/// Whether `registry` holds the stated contracts, in their order, each with
/// the address that its hexadecimal digits write.
pub open spec fn registry_described(
    stated: Seq<StatedContract>,
    registry: Seq<(EthereumChain, EthDefiToken, Address)>,
) -> bool {
    &&& registry.len() == stated.len()
    &&& forall|i: int|
        0 <= i < stated.len() ==> {
            &&& (#[trigger] registry[i]).0 == stated[i].0
            &&& registry[i].1 == stated[i].1
            &&& address_written(stated[i].2, registry[i].2)
        }
}

/// Two described registries in a row are described by their statements in a
/// row.
pub proof fn lemma_registry_described_concat(
    a: Seq<StatedContract>,
    x: Seq<(EthereumChain, EthDefiToken, Address)>,
    b: Seq<StatedContract>,
    y: Seq<(EthereumChain, EthDefiToken, Address)>,
)
    requires
        registry_described(a, x),
        registry_described(b, y),
    ensures
        registry_described(a + b, x + y),
{
    assert forall|i: int| 0 <= i < (a + b).len() implies {
        &&& (#[trigger] (x + y)[i]).0 == (a + b)[i].0
        &&& (x + y)[i].1 == (a + b)[i].1
        &&& address_written((a + b)[i].2, (x + y)[i].2)
    } by {
        if i < a.len() {
            assert((x + y)[i] == x[i]);
        } else {
            assert((x + y)[i] == y[i - a.len()]);
            assert((a + b)[i] == b[i - a.len()]);
        }
    }
}

/// The contracts of one protocol on one chain.
fn contracts_of_platform(chain: EthereumChain, platform: EthDefiToken, addresses: &Vec<String>) -> (r:
    Result<Vec<(EthereumChain, EthDefiToken, Address)>, ApiError>)
    ensures
        (forall|a: int| 0 <= a < addresses@.len() ==> is_hex_of_twenty_bytes((#[trigger] addresses@[a])@))
            ==> (r matches Ok(registry) && registry_described(
            platform_entries(chain, platform, addresses@),
            registry@,
        )),
        !(forall|a: int|
            0 <= a < addresses@.len() ==> is_hex_of_twenty_bytes((#[trigger] addresses@[a])@)) ==> (
        r matches Err(e) && e.kind() == ErrorKind::Configuration),
        match r {
            Ok(_) => first_failure(address_failures(addresses@)) is None,
            Err(e) => first_failure(address_failures(addresses@)) == Some(e.message()),
        },
{
    let mut registry: Vec<(EthereumChain, EthDefiToken, Address)> = Vec::new();
    let mut a: usize = 0;
    while a < addresses.len()
        invariant
            a <= addresses.len(),
            registry@.len() == a,
            forall|i: int| 0 <= i < a ==> is_hex_of_twenty_bytes((#[trigger] addresses@[i])@),
            forall|i: int|
                0 <= i < a ==> {
                    &&& (#[trigger] registry@[i]).0 == chain
                    &&& registry@[i].1 == platform
                    &&& address_written(addresses@[i]@, registry@[i].2)
                },
        decreases addresses.len() - a,
    {
        match parse_address(addresses[a].as_str()) {
            Some(address) => {
                registry.push((chain, platform, address));
            },
            None => {
                assert(!is_hex_of_twenty_bytes(addresses@[a as int]@));
                proof {
                    let failures = address_failures(addresses@);
                    assert forall|k: int| 0 <= k < a implies (#[trigger] failures[k]) is None by {
                        let _ = addresses@[k];
                    }
                    lemma_first_failure_at(failures, a as int);
                }
                return Err(
                    ApiError::describe(
                        ErrorKind::Configuration,
                        "Invalid address: ",
                        addresses[a].as_str(),
                    ),
                );
            },
        }
        a = a + 1;
    }
    proof {
        let failures = address_failures(addresses@);
        assert forall|k: int| 0 <= k < failures.len() implies (#[trigger] failures[k]) is None by {
            let _ = addresses@[k];
        }
        lemma_first_failure_none(failures);
    }
    Ok(registry)
}

/// The contracts of one chain.
fn contracts_of_chain(chain: EthereumChain, platforms: &Vec<(String, Vec<String>)>) -> (r: Result<
    Vec<(EthereumChain, EthDefiToken, Address)>,
    ApiError,
>)
    ensures
        chain_valid(platforms@) ==> (r matches Ok(registry) && registry_described(
            chain_entries(chain, platforms@),
            registry@,
        )),
        !chain_valid(platforms@) ==> (r matches Err(e) && e.kind() == ErrorKind::Configuration),
        match r {
            Ok(_) => first_failure(platform_failures(platforms@)) is None,
            Err(e) => first_failure(platform_failures(platforms@)) == Some(e.message()),
        },
{
    let mut registry: Vec<(EthereumChain, EthDefiToken, Address)> = Vec::new();
    let mut p: usize = 0;
    assert(platforms@.take(0) =~= Seq::empty());
    while p < platforms.len()
        invariant
            p <= platforms.len(),
            forall|k: int| 0 <= k < p ==> platform_failure(#[trigger] platforms@[k]) is None,
            chain_valid(platforms@.take(p as int)),
            registry_described(chain_entries(chain, platforms@.take(p as int)), registry@),
        decreases platforms.len() - p,
    {
        let ghost grown = platforms@.take(p + 1);
        proof {
            assert(grown.drop_last() =~= platforms@.take(p as int));
            assert(grown.last() == platforms@[p as int]);
        }
        let platform = match known_platform(platforms[p].0.as_str()) {
            Some(platform) => platform,
            None => {
                assert(platform_named(platforms@[p as int].0@) is None);
                proof {
                    let failures = platform_failures(platforms@);
                    assert forall|k: int| 0 <= k < p implies (#[trigger] failures[k]) is None by {
                        let _ = platforms@[k];
                    }
                    lemma_first_failure_at(failures, p as int);
                }
                return Err(
                    ApiError::describe(
                        ErrorKind::Configuration,
                        "Unexpected DeFi platform identifier: ",
                        platforms[p].0.as_str(),
                    ),
                );
            },
        };
        let mut found = match contracts_of_platform(chain, platform, &platforms[p].1) {
            Ok(found) => found,
            Err(e) => {
                assert(!chain_valid(platforms@)) by {
                    let _ = platforms@[p as int];
                }
                proof {
                    let failures = platform_failures(platforms@);
                    assert forall|k: int| 0 <= k < p implies (#[trigger] failures[k]) is None by {
                        let _ = platforms@[k];
                    }
                    lemma_first_failure_at(failures, p as int);
                }
                return Err(e);
            },
        };
        proof {
            lemma_registry_described_concat(
                chain_entries(chain, platforms@.take(p as int)),
                registry@,
                platform_entries(chain, platform, platforms@[p as int].1@),
                found@,
            );
            assert forall|q: int| 0 <= q < grown.len() implies {
                &&& platform_named((#[trigger] grown[q]).0@) is Some
                &&& forall|a: int|
                    0 <= a < grown[q].1@.len() ==> is_hex_of_twenty_bytes(
                        (#[trigger] grown[q].1@[a])@,
                    )
            } by {
                if q < p {
                    assert(grown[q] == platforms@.take(p as int)[q]);
                }
            }
        }
        registry.append(&mut found);
        p = p + 1;
    }
    assert(platforms@.take(p as int) =~= platforms@);
    proof {
        let failures = platform_failures(platforms@);
        assert forall|k: int| 0 <= k < failures.len() implies (#[trigger] failures[k]) is None by {
            let _ = platforms@[k];
        }
        lemma_first_failure_none(failures);
    }
    Ok(registry)
}

/// The registry of smart contracts that the configuration file states.
fn registry_from_config(chains: &Vec<(String, Vec<(String, Vec<String>)>)>) -> (r: Result<
    Vec<(EthereumChain, EthDefiToken, Address)>,
    ApiError,
>)
    ensures
        registry_valid(chains@) ==> (r matches Ok(registry) && registry_described(
            registry_entries(chains@),
            registry@,
        )),
        !registry_valid(chains@) ==> (r matches Err(e) && e.kind() == ErrorKind::Configuration),
        match r {
            Ok(_) => first_failure(chain_failures(chains@)) is None,
            Err(e) => first_failure(chain_failures(chains@)) == Some(e.message()),
        },
{
    let mut registry: Vec<(EthereumChain, EthDefiToken, Address)> = Vec::new();
    let mut c: usize = 0;
    assert(chains@.take(0) =~= Seq::empty());
    while c < chains.len()
        invariant
            c <= chains.len(),
            forall|k: int| 0 <= k < c ==> chain_failure(#[trigger] chains@[k]) is None,
            registry_valid(chains@.take(c as int)),
            registry_described(registry_entries(chains@.take(c as int)), registry@),
        decreases chains.len() - c,
    {
        let ghost grown = chains@.take(c + 1);
        proof {
            assert(grown.drop_last() =~= chains@.take(c as int));
            assert(grown.last() == chains@[c as int]);
        }
        let chain = match known_blockchain(chains[c].0.as_str()) {
            Some(chain) => chain,
            None => {
                assert(chain_named(chains@[c as int].0@) is None);
                proof {
                    let failures = chain_failures(chains@);
                    assert forall|k: int| 0 <= k < c implies (#[trigger] failures[k]) is None by {
                        let _ = chains@[k];
                    }
                    lemma_first_failure_at(failures, c as int);
                }
                return Err(
                    ApiError::describe(
                        ErrorKind::Configuration,
                        "Unexpected blockchain identifier: ",
                        chains[c].0.as_str(),
                    ),
                );
            },
        };
        let mut found = match contracts_of_chain(chain, &chains[c].1) {
            Ok(found) => found,
            Err(e) => {
                assert(!chain_valid(chains@[c as int].1@));
                proof {
                    let failures = chain_failures(chains@);
                    assert forall|k: int| 0 <= k < c implies (#[trigger] failures[k]) is None by {
                        let _ = chains@[k];
                    }
                    lemma_first_failure_at(failures, c as int);
                }
                return Err(e);
            },
        };
        proof {
            lemma_registry_described_concat(
                registry_entries(chains@.take(c as int)),
                registry@,
                chain_entries(chain, chains@[c as int].1@),
                found@,
            );
            assert forall|q: int| 0 <= q < grown.len() implies chain_named((#[trigger] grown[q]).0@)
                is Some && chain_valid(grown[q].1@) by {
                if q < c {
                    assert(grown[q] == chains@.take(c as int)[q]);
                }
            }
        }
        registry.append(&mut found);
        c = c + 1;
    }
    assert(chains@.take(c as int) =~= chains@);
    proof {
        let failures = chain_failures(chains@);
        assert forall|k: int| 0 <= k < failures.len() implies (#[trigger] failures[k]) is None by {
            let _ = chains@[k];
        }
        lemma_first_failure_none(failures);
    }
    Ok(registry)
}

/// Whether the configuration file's nodes can be used: each is stated for a
/// known chain.
pub open spec fn nodes_valid(nodes: Seq<(String, String)>) -> bool {
    forall|n: int| 0 <= n < nodes.len() ==> chain_named((#[trigger] nodes[n]).0@) is Some
}

/// Whether `eth_nodes` are the nodes that the configuration file states, in
/// their order.
pub open spec fn nodes_described(nodes: Seq<(String, String)>, eth_nodes: Seq<EthereumNode>) -> bool {
    &&& eth_nodes.len() == nodes.len()
    &&& forall|n: int|
        0 <= n < nodes.len() ==> {
            &&& Some((#[trigger] eth_nodes[n]).chain) == chain_named(nodes[n].0@)
            &&& eth_nodes[n].url@ == nodes[n].1@
        }
}

/// The nodes that the configuration file states.
fn nodes_from_config(nodes: &Vec<(String, String)>) -> (r: Result<Vec<EthereumNode>, ApiError>)
    ensures
        nodes_valid(nodes@) ==> (r matches Ok(eth_nodes) && nodes_described(nodes@, eth_nodes@)),
        !nodes_valid(nodes@) ==> (r matches Err(e) && e.kind() == ErrorKind::Configuration),
        match r {
            Ok(_) => first_failure(node_failures(nodes@)) is None,
            Err(e) => first_failure(node_failures(nodes@)) == Some(e.message()),
        },
{
    let mut eth_nodes: Vec<EthereumNode> = Vec::new();
    let mut n: usize = 0;
    while n < nodes.len()
        invariant
            n <= nodes.len(),
            eth_nodes@.len() == n,
            forall|i: int| 0 <= i < n ==> chain_named((#[trigger] nodes@[i]).0@) is Some,
            forall|i: int|
                0 <= i < n ==> {
                    &&& Some((#[trigger] eth_nodes@[i]).chain) == chain_named(nodes@[i].0@)
                    &&& eth_nodes@[i].url@ == nodes@[i].1@
                },
        decreases nodes.len() - n,
    {
        match known_blockchain(nodes[n].0.as_str()) {
            Some(chain) => {
                eth_nodes.push(EthereumNode { chain, url: nodes[n].1.clone() });
            },
            None => {
                assert(chain_named(nodes@[n as int].0@) is None);
                proof {
                    let failures = node_failures(nodes@);
                    assert forall|k: int| 0 <= k < n implies (#[trigger] failures[k]) is None by {
                        let _ = nodes@[k];
                    }
                    lemma_first_failure_at(failures, n as int);
                }
                return Err(
                    ApiError::describe(
                        ErrorKind::Configuration,
                        "Unexpected blockchain identifier: ",
                        nodes[n].0.as_str(),
                    ),
                );
            },
        }
        n = n + 1;
    }
    proof {
        let failures = node_failures(nodes@);
        assert forall|k: int| 0 <= k < failures.len() implies (#[trigger] failures[k]) is None by {
            let _ = nodes@[k];
        }
        lemma_first_failure_none(failures);
    }
    Ok(eth_nodes)
}

/// Whether a configuration file can be used: each account is usable, each
/// fund lists stated accounts only, and contracts and nodes are stated for
/// known chains and protocols with well-written addresses.
pub open spec fn config_valid(config: Configuration) -> bool {
    &&& forall|i: int| 0 <= i < config.accounts@.len() ==> usable((#[trigger] config.accounts@[i]).1)
    &&& forall|f: int|
        0 <= f < config.funds@.len() ==> fund_resolvable(
            config.accounts@,
            #[trigger] config.funds@[f],
        )
    &&& registry_valid(config.smart_contracts@)
    &&& nodes_valid(config.nodes@)
}

/// Whether `domain` is what a configuration file states.
pub open spec fn domain_described(config: Configuration, domain: DomainConfig) -> bool {
    &&& domain.funds@.len() == config.funds@.len()
    &&& forall|f: int|
        0 <= f < config.funds@.len() ==> fund_described(
            config.accounts@,
            config.funds@[f],
            #[trigger] domain.funds@[f],
        )
    &&& registry_described(registry_entries(config.smart_contracts@), domain.smart_contracts@)
    &&& nodes_described(config.nodes@, domain.eth_nodes@)
    &&& domain.client_whitelist == config.clients
    &&& domain.port == config.port
    &&& domain.listen_address == config.listen_address
}

/// A configuration file can be used exactly where nothing is wrong with it.
pub proof fn lemma_valid_config_has_no_failure(config: Configuration)
    ensures
        config_valid(config) <==> config_failure(config) is None,
{
    let entries = config.accounts@;
    lemma_first_failure_is_none(account_failures(entries));
    assert forall|i: int| 0 <= i < entries.len() implies (usable((#[trigger] entries[i]).1)
        <==> account_failures(entries)[i] is None) by {}
    lemma_first_failure_is_none(fund_failures(entries, config.funds@));
    assert forall|f: int| 0 <= f < config.funds@.len() implies (fund_resolvable(
        entries,
        #[trigger] config.funds@[f],
    ) <==> fund_failures(entries, config.funds@)[f] is None) by {
        let names = config.funds@[f].accounts@;
        lemma_first_failure_is_none(name_failures(entries, names));
        assert forall|j: int| 0 <= j < names.len() implies (lookup(entries, (#[trigger] names[j])@)
            is Some <==> name_failures(entries, names)[j] is None) by {}
    }
    let chains = config.smart_contracts@;
    lemma_first_failure_is_none(chain_failures(chains));
    assert forall|c: int| 0 <= c < chains.len() implies ((chain_named((#[trigger] chains[c]).0@)
        is Some && chain_valid(chains[c].1@)) <==> chain_failures(chains)[c] is None) by {
        let platforms = chains[c].1@;
        lemma_first_failure_is_none(platform_failures(platforms));
        assert forall|p: int| 0 <= p < platforms.len() implies ((platform_named(
            (#[trigger] platforms[p]).0@,
        ) is Some && forall|a: int|
            0 <= a < platforms[p].1@.len() ==> is_hex_of_twenty_bytes(
                (#[trigger] platforms[p].1@[a])@,
            )) <==> platform_failures(platforms)[p] is None) by {
            let addresses = platforms[p].1@;
            lemma_first_failure_is_none(address_failures(addresses));
            assert forall|a: int| 0 <= a < addresses.len() implies (is_hex_of_twenty_bytes(
                (#[trigger] addresses[a])@,
            ) <==> address_failures(addresses)[a] is None) by {}
        }
    }
    let nodes = config.nodes@;
    lemma_first_failure_is_none(node_failures(nodes));
    assert forall|n: int| 0 <= n < nodes.len() implies (chain_named((#[trigger] nodes[n]).0@)
        is Some <==> node_failures(nodes)[n] is None) by {}
}

impl DomainConfig {
    /// What a configuration file states, made ready for valuations: accounts
    /// in place of their names, chains and protocols in place of their
    /// identifiers, addresses in place of their digits. A file that cannot be
    /// used is refused as a whole.
    pub fn from_config(config: Configuration) -> (r: Result<DomainConfig, ApiError>)
        ensures
            config_valid(config) ==> (r matches Ok(domain) && domain_described(config, domain)),
            !config_valid(config) ==> (r matches Err(e) && e.kind() == ErrorKind::Configuration),
            match r {
                Ok(_) => config_failure(config) is None,
                Err(e) => config_failure(config) == Some(e.message()),
            },
    {
        let table = accounts_from_config(&config.accounts)?;
        let mut funds: Vec<Fund> = Vec::new();
        let mut f: usize = 0;
        while f < config.funds.len()
            invariant
                f <= config.funds.len(),
                first_failure(account_failures(config.accounts@)) is None,
                forall|g: int|
                    0 <= g < f ==> first_failure(
                        name_failures(config.accounts@, (#[trigger] config.funds@[g]).accounts@),
                    ) is None,
                table.wf(),
                accounts_described(config.accounts@, table),
                funds@.len() == f,
                forall|g: int|
                    0 <= g < f ==> fund_resolvable(config.accounts@, #[trigger] config.funds@[g]),
                forall|g: int|
                    0 <= g < f ==> fund_described(
                        config.accounts@,
                        config.funds@[g],
                        #[trigger] funds@[g],
                    ),
            decreases config.funds.len() - f,
        {
            match fund_from_config(&table, &config.funds[f], Ghost(config.accounts@)) {
                Ok(fund) => {
                    funds.push(fund);
                },
                Err(e) => {
                    assert(!fund_resolvable(config.accounts@, config.funds@[f as int]));
                    proof {
                        let failures = fund_failures(config.accounts@, config.funds@);
                        assert forall|g: int| 0 <= g < f implies (#[trigger] failures[g]) is None by {
                            let _ = config.funds@[g];
                        }
                        lemma_first_failure_at(failures, f as int);
                    }
                    return Err(e);
                },
            }
            f = f + 1;
        }
        proof {
            let failures = fund_failures(config.accounts@, config.funds@);
            assert forall|g: int| 0 <= g < failures.len() implies (#[trigger] failures[g]) is None by {
                let _ = config.funds@[g];
            }
            lemma_first_failure_none(failures);
        }
        let smart_contracts = registry_from_config(&config.smart_contracts)?;
        let eth_nodes = nodes_from_config(&config.nodes)?;
        Ok(
            DomainConfig {
                funds,
                smart_contracts,
                eth_nodes,
                client_whitelist: config.clients,
                port: config.port,
                listen_address: config.listen_address,
            },
        )
    }
}

} // verus!
