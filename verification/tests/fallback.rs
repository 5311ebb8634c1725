use get_rich_slow::account::EthereumAccount;
use get_rich_slow::asset::Asset;
use get_rich_slow::blockchain::defiasset::DefiAsset;
use get_rich_slow::blockchain::fallback::{NodeAction, NodeFallback, NodeStep};
use get_rich_slow::blockchain::{
    contracts_for_step, contracts_on_chain, get_assets_of_ethereum_account, nodes_for_chain,
    EthDefiToken,
};
use get_rich_slow::decimal::Decimal;
use get_rich_slow::domainconfig::DomainConfig;
use get_rich_slow::error::{ApiError, ErrorKind};
use get_rich_slow::ethereum::{Address, EthereumChain, EthereumNode};

fn node(chain: EthereumChain, url: &str) -> EthereumNode {
    EthereumNode { chain, url: url.to_string() }
}

fn config(eth_nodes: Vec<EthereumNode>) -> DomainConfig {
    DomainConfig {
        funds: Vec::new(),
        smart_contracts: vec![
            (EthereumChain::BinanceSmartChain, EthDefiToken::Venus, Address { bytes: [1; 20] }),
            (EthereumChain::AvalancheC, EthDefiToken::Benqi, Address { bytes: [2; 20] }),
            (EthereumChain::BinanceSmartChain, EthDefiToken::Alpaca, Address { bytes: [3; 20] }),
            (EthereumChain::BinanceSmartChain, EthDefiToken::Venus, Address { bytes: [4; 20] }),
        ],
        eth_nodes,
        client_whitelist: None,
        port: 8000,
        listen_address: "127.0.0.1".to_string(),
    }
}

fn wallet(chain: EthereumChain) -> EthereumAccount {
    EthereumAccount { name: "wallet".to_string(), chain, wallet_address: Address { bytes: [9; 20] } }
}

fn asset(name: &str) -> DefiAsset {
    DefiAsset::new(
        Decimal::zero(),
        name.to_string(),
        Decimal::one(),
        Decimal::one(),
        name.to_string(),
    )
}

fn failure() -> ApiError {
    ApiError::from_rpc_failure("connection refused")
}

fn query_of(action: &NodeAction) -> (usize, NodeStep) {
    match action {
        NodeAction::Query { node, step } => (*node, *step),
        NodeAction::Finished(_) => panic!("finished too early"),
        NodeAction::Failed(_) => panic!("failed too early"),
    }
}

fn names_of(action: NodeAction) -> Vec<String> {
    match action {
        NodeAction::Finished(assets) => {
            let mut names = Vec::new();
            for asset in assets.iter() {
                names.push(asset.get_name());
            }
            names
        }
        NodeAction::Query { .. } => panic!("not finished"),
        NodeAction::Failed(_) => panic!("failed"),
    }
}

fn error_of(action: NodeAction) -> ApiError {
    match action {
        NodeAction::Failed(e) => e,
        NodeAction::Query { .. } => panic!("not failed"),
        NodeAction::Finished(_) => panic!("finished"),
    }
}

fn three_bsc_nodes() -> DomainConfig {
    config(vec![
        node(EthereumChain::AvalancheC, "https://avax"),
        node(EthereumChain::BinanceSmartChain, "https://bsc-1"),
        node(EthereumChain::BinanceSmartChain, "https://bsc-2"),
        node(EthereumChain::Ethereum, "https://eth"),
        node(EthereumChain::BinanceSmartChain, "https://bsc-3"),
    ])
}

#[test]
fn nodes_of_a_chain_in_order() {
    let domain = three_bsc_nodes();
    assert_eq!(nodes_for_chain(&domain.eth_nodes, EthereumChain::BinanceSmartChain), vec![1, 2, 4]);
    assert_eq!(nodes_for_chain(&domain.eth_nodes, EthereumChain::AvalancheC), vec![0]);
    assert_eq!(nodes_for_chain(&domain.eth_nodes, EthereumChain::Moonriver), Vec::<usize>::new());
}

#[test]
fn contracts_of_a_protocol_on_a_chain_in_order() {
    let domain = three_bsc_nodes();
    let venus = contracts_on_chain(&domain, EthereumChain::BinanceSmartChain, EthDefiToken::Venus);
    assert_eq!(venus, vec![Address { bytes: [1; 20] }, Address { bytes: [4; 20] }]);
    let benqi = contracts_on_chain(&domain, EthereumChain::AvalancheC, EthDefiToken::Benqi);
    assert_eq!(benqi, vec![Address { bytes: [2; 20] }]);
    let none = contracts_on_chain(&domain, EthereumChain::AvalancheC, EthDefiToken::Venus);
    assert_eq!(none.len(), 0);
}

#[test]
fn third_node_wins_after_two_nodes_failed_one_query_each() {
    let domain = three_bsc_nodes();
    let (mut state, action) =
        get_assets_of_ethereum_account(&domain, &wallet(EthereumChain::BinanceSmartChain));
    assert!(state.is_waiting());
    assert_eq!(query_of(&action), (1, NodeStep::Native));
    let action = state.advance(Ok(vec![asset("first node native")]));
    assert_eq!(query_of(&action), (1, NodeStep::Venus));
    let action = state.advance(Err(failure()));
    assert_eq!(query_of(&action), (2, NodeStep::Native));
    let action = state.advance(Ok(vec![asset("second node native")]));
    assert_eq!(query_of(&action), (2, NodeStep::Venus));
    let action = state.advance(Ok(vec![asset("second node venus")]));
    assert_eq!(query_of(&action), (2, NodeStep::Alpaca));
    let action = state.advance(Err(failure()));
    assert_eq!(query_of(&action), (4, NodeStep::Native));
    let action = state.advance(Ok(vec![asset("BNB")]));
    assert_eq!(query_of(&action), (4, NodeStep::Venus));
    let action = state.advance(Ok(vec![asset("BTC"), asset("ETH")]));
    assert_eq!(query_of(&action), (4, NodeStep::Alpaca));
    let action = state.advance(Ok(vec![asset("USDT")]));
    assert!(!state.is_waiting());
    assert_eq!(names_of(action), vec!["BNB", "BTC", "ETH", "USDT"]);
}

#[test]
fn all_nodes_failing_fails_with_the_name_of_the_chain() {
    let domain = three_bsc_nodes();
    let (mut state, action) =
        get_assets_of_ethereum_account(&domain, &wallet(EthereumChain::BinanceSmartChain));
    assert_eq!(query_of(&action), (1, NodeStep::Native));
    let action = state.advance(Err(failure()));
    assert_eq!(query_of(&action), (2, NodeStep::Native));
    let action = state.advance(Ok(Vec::new()));
    assert_eq!(query_of(&action), (2, NodeStep::Venus));
    let action = state.advance(Err(failure()));
    assert_eq!(query_of(&action), (4, NodeStep::Native));
    let action = state.advance(Ok(Vec::new()));
    let action = match action {
        NodeAction::Query { .. } => state.advance(Ok(Vec::new())),
        other => other,
    };
    assert_eq!(query_of(&action), (4, NodeStep::Alpaca));
    let action = state.advance(Err(failure()));
    assert!(!state.is_waiting());
    let e = error_of(action);
    assert_eq!(e.get_kind(), ErrorKind::Network);
    assert_eq!(e.get_message(), "All nodes for blockchain BSC failed for at least one contract");
}

#[test]
fn first_node_wins_when_it_answers_everything() {
    let domain = three_bsc_nodes();
    let (mut state, action) =
        get_assets_of_ethereum_account(&domain, &wallet(EthereumChain::AvalancheC));
    assert_eq!(query_of(&action), (0, NodeStep::Native));
    let action = state.advance(Ok(vec![asset("AVAX")]));
    assert_eq!(query_of(&action), (0, NodeStep::Benqi));
    let action = state.advance(Ok(vec![asset("DAI"), asset("QI")]));
    assert_eq!(names_of(action), vec!["AVAX", "DAI", "QI"]);
}

#[test]
fn chains_without_protocols_ask_for_the_native_coin_only() {
    let domain = three_bsc_nodes();
    let (mut state, action) =
        get_assets_of_ethereum_account(&domain, &wallet(EthereumChain::Ethereum));
    assert_eq!(query_of(&action), (3, NodeStep::Native));
    let action = state.advance(Ok(Vec::new()));
    assert_eq!(names_of(action), Vec::<String>::new());
}

#[test]
fn chain_without_a_node_is_a_configuration_error() {
    let domain = three_bsc_nodes();
    let (state, action) =
        get_assets_of_ethereum_account(&domain, &wallet(EthereumChain::Moonbeam));
    assert!(!state.is_waiting());
    let e = error_of(action);
    assert_eq!(e.get_kind(), ErrorKind::Configuration);
    assert_eq!(e.get_message(), "No node configured for blockchain Moonbeam");
}

#[test]
fn single_failing_node_fails_at_once() {
    let (mut state, action) = NodeFallback::start(EthereumChain::Moonriver, vec![5]);
    assert_eq!(query_of(&action), (5, NodeStep::Native));
    let e = error_of(state.advance(Err(failure())));
    assert_eq!(
        e.get_message(),
        "All nodes for blockchain Moonriver failed for at least one contract"
    );
}

#[test]
fn contracts_that_a_question_reads() {
    let domain = three_bsc_nodes();
    let bsc = EthereumChain::BinanceSmartChain;
    assert_eq!(contracts_for_step(&domain, bsc, NodeStep::Native).len(), 0);
    assert_eq!(
        contracts_for_step(&domain, bsc, NodeStep::Venus),
        vec![Address { bytes: [1; 20] }, Address { bytes: [4; 20] }]
    );
    assert_eq!(
        contracts_for_step(&domain, bsc, NodeStep::Alpaca),
        vec![Address { bytes: [3; 20] }]
    );
    assert_eq!(contracts_for_step(&domain, bsc, NodeStep::Benqi).len(), 0);
    assert_eq!(
        contracts_for_step(&domain, EthereumChain::AvalancheC, NodeStep::Benqi),
        vec![Address { bytes: [2; 20] }]
    );
}
