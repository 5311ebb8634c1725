pub mod alpaca;
pub mod benqi;
pub mod defiasset;
pub mod fallback;
pub mod venus;

use vstd::prelude::*;
use crate::account::EthereumAccount;
use crate::asset::{Asset, AssetModel};
use crate::blockchain::defiasset::{models_of, DefiAsset};
use crate::blockchain::fallback::{started, NodeAction, NodeFallback, NodeStep};
use crate::decimal::{lemma_of_units_defined, Decimal};
use crate::domainconfig::DomainConfig;
use crate::error::{ApiError, ErrorKind};
use crate::ethereum::{Address, EthereumChain, EthereumNode};

verus! {

/// A kind of smart contract that the valuation knows how to read.
#[derive(Clone, Copy, Debug, PartialEq, Eq, Structural)]
pub enum EthDefiToken {
    Bep20,
    Alpaca,
    Venus,
    Benqi,
}

/// The token that a symbol stands for, given what the symbol's expression
/// captured in it: the capture, and a parse failure that names `symbol` after
/// `complaint` where there is none.
pub fn underlying_from_capture(capture: Option<String>, complaint: &str, symbol: &str) -> (r:
    Result<String, ApiError>)
    ensures
        match capture {
            Some(name) => r == Ok::<String, ApiError>(name),
            None => r matches Err(e) && e.kind() == ErrorKind::Parse && e.message() == complaint@
                + symbol@,
        },
{
    match capture {
        Some(name) => Ok(name),
        None => Err(ApiError::describe(ErrorKind::Parse, complaint, symbol)),
    }
}

/// Whether a balance is a position: a wallet that holds nothing of a token
/// has no position in it, and the token's contract is read no further.
pub fn holds_position(balance: u128) -> (held: bool)
    ensures
        held == (balance != 0),
{
    balance != 0
}

/// The fractional digits of a balance of a chain's native coin.
pub const NATIVE_DIGITS: u8 = 18;

/// What a wallet holds of its chain's native coin: nothing for an empty
/// balance, else one holding of the coin that does not grow.
pub open spec fn native_assets_of(chain: EthereumChain, balance: u128, price: Decimal) -> Seq<
    AssetModel,
> {
    if balance == 0 {
        Seq::empty()
    } else {
        seq![
            AssetModel {
                name: chain.trading_symbol(),
                description: chain.name(),
                units: Decimal::of_units(balance, NATIVE_DIGITS)->0,
                unit_price: price,
                nominal_growth: Decimal { raw: 0 },
            },
        ]
    }
}

/// The native coin that the account's wallet holds, from the wallet's balance
/// and the coin's price in USD.
pub fn get_native_asset(account: &EthereumAccount, balance: u128, price: Decimal) -> (assets: Vec<
    DefiAsset,
>)
    ensures
        models_of(assets@) == native_assets_of(account.chain, balance, price),
        balance != 0 ==> Decimal::of_units(balance, NATIVE_DIGITS) is Some,
{
    let mut assets: Vec<DefiAsset> = Vec::new();
    if !holds_position(balance) {
        assert(models_of(assets@) =~= Seq::empty());
        return assets;
    }
    proof {
        lemma_of_units_defined(balance, NATIVE_DIGITS);
    }
    let units = match Decimal::from_units(balance, NATIVE_DIGITS) {
        Some(units) => units,
        None => Decimal::zero(),
    };
    let asset = DefiAsset::new(
        Decimal::zero(),
        account.chain.to_trading_symbol(),
        units,
        price,
        account.chain.to_str().to_string(),
    );
    assets.push(asset);
    assert(models_of(assets@) =~= native_assets_of(account.chain, balance, price));
    assets
}

/// The places in `nodes` of the nodes that serve `chain`, in rising order.
pub open spec fn nodes_serving(nodes: Seq<EthereumNode>, chain: EthereumChain) -> Seq<usize>
    decreases nodes.len(),
{
    if nodes.len() == 0 {
        Seq::empty()
    } else if nodes.last().chain == chain {
        nodes_serving(nodes.drop_last(), chain).push((nodes.len() - 1) as usize)
    } else {
        nodes_serving(nodes.drop_last(), chain)
    }
}

/// The addresses of the registered contracts of one protocol on one chain, in
/// the order of the registry.
pub open spec fn contracts_registered(
    registry: Seq<(EthereumChain, EthDefiToken, Address)>,
    chain: EthereumChain,
    protocol: EthDefiToken,
) -> Seq<Address>
    decreases registry.len(),
{
    if registry.len() == 0 {
        Seq::empty()
    } else if registry.last().0 == chain && registry.last().1 == protocol {
        contracts_registered(registry.drop_last(), chain, protocol).push(registry.last().2)
    } else {
        contracts_registered(registry.drop_last(), chain, protocol)
    }
}

/// Every place that `nodes_serving` lists is a place in `nodes`, of a node
/// that serves the chain.
pub proof fn lemma_nodes_serving_are_nodes(nodes: Seq<EthereumNode>, chain: EthereumChain)
    requires
        nodes.len() <= usize::MAX,
    ensures
        forall|i: int|
            0 <= i < nodes_serving(nodes, chain).len() ==> {
                let place = #[trigger] nodes_serving(nodes, chain)[i];
                place < nodes.len() && nodes[place as int].chain == chain
            },
        nodes_serving(nodes, chain).len() == 0 <==> forall|j: int|
            0 <= j < nodes.len() ==> (#[trigger] nodes[j]).chain != chain,
    decreases nodes.len(),
{
    if nodes.len() > 0 {
        let before = nodes.drop_last();
        lemma_nodes_serving_are_nodes(before, chain);
        assert(forall|j: int| 0 <= j < before.len() ==> before[j] == nodes[j]);
        if nodes.last().chain == chain {
            assert(nodes[nodes.len() - 1].chain == chain);
        } else if nodes_serving(nodes, chain).len() == 0 {
            assert forall|j: int| 0 <= j < nodes.len() implies (#[trigger] nodes[j]).chain
                != chain by {
                if j < before.len() {
                    assert(before[j] == nodes[j]);
                }
            }
        } else {
            let j = choose|j: int| 0 <= j < before.len() && (#[trigger] before[j]).chain == chain;
            assert(nodes[j].chain == chain);
        }
    }
}

/// The places of the nodes that serve a chain.
pub fn nodes_for_chain(nodes: &Vec<EthereumNode>, chain: EthereumChain) -> (places: Vec<usize>)
    ensures
        places@ == nodes_serving(nodes@, chain),
{
    let mut places: Vec<usize> = Vec::new();
    let mut i: usize = 0;
    assert(nodes@.take(0) =~= Seq::empty());
    while i < nodes.len()
        invariant
            i <= nodes.len(),
            places@ == nodes_serving(nodes@.take(i as int), chain),
        decreases nodes.len() - i,
    {
        assert(nodes@.take(i + 1).drop_last() =~= nodes@.take(i as int));
        if nodes[i].chain == chain {
            places.push(i);
        }
        i = i + 1;
    }
    assert(nodes@.take(i as int) =~= nodes@);
    places
}

/// The registered contracts of one protocol on one chain.
pub fn contracts_on_chain(
    domainconfig: &DomainConfig,
    chain: EthereumChain,
    protocol: EthDefiToken,
) -> (addresses: Vec<Address>)
    ensures
        addresses@ == contracts_registered(domainconfig.smart_contracts@, chain, protocol),
{
    let registry = &domainconfig.smart_contracts;
    let mut addresses: Vec<Address> = Vec::new();
    let mut i: usize = 0;
    assert(registry@.take(0) =~= Seq::empty());
    while i < registry.len()
        invariant
            i <= registry.len(),
            addresses@ == contracts_registered(registry@.take(i as int), chain, protocol),
        decreases registry.len() - i,
    {
        assert(registry@.take(i + 1).drop_last() =~= registry@.take(i as int));
        if registry[i].0 == chain && registry[i].1 == protocol {
            addresses.push(registry[i].2);
        }
        i = i + 1;
    }
    assert(registry@.take(i as int) =~= registry@);
    addresses
}

/// The protocol whose contracts a question reads, if it reads any.
pub open spec fn protocol_of(step: NodeStep) -> Option<EthDefiToken> {
    match step {
        NodeStep::Native => None,
        NodeStep::Venus => Some(EthDefiToken::Venus),
        NodeStep::Alpaca => Some(EthDefiToken::Alpaca),
        NodeStep::Benqi => Some(EthDefiToken::Benqi),
    }
}

/// The contracts that a question to a node reads: the registered contracts of
/// the question's protocol on the chain, and none for the native balance.
pub fn contracts_for_step(domainconfig: &DomainConfig, chain: EthereumChain, step: NodeStep) -> (addresses:
    Vec<Address>)
    ensures
        addresses@ == (match protocol_of(step) {
            Some(protocol) => contracts_registered(domainconfig.smart_contracts@, chain, protocol),
            None => Seq::empty(),
        }),
{
    match step {
        NodeStep::Native => Vec::new(),
        NodeStep::Venus => contracts_on_chain(domainconfig, chain, EthDefiToken::Venus),
        NodeStep::Alpaca => contracts_on_chain(domainconfig, chain, EthDefiToken::Alpaca),
        NodeStep::Benqi => contracts_on_chain(domainconfig, chain, EthDefiToken::Benqi),
    }
}

/// Begins the valuation of an account: picks the nodes that serve the
/// account's chain and tells what to ask the first of them. Without such a
/// node the valuation fails at once, with an error that names the chain.
pub fn get_assets_of_ethereum_account(domainconfig: &DomainConfig, account: &EthereumAccount) -> (r:
    (NodeFallback, NodeAction))
    ensures
        (r.0.model(), r.1.model()) == started(
            account.chain,
            nodes_serving(domainconfig.eth_nodes@, account.chain),
        ),
        r.0.model().wf(),
{
    NodeFallback::start(account.chain, nodes_for_chain(&domainconfig.eth_nodes, account.chain))
}

} // verus!
