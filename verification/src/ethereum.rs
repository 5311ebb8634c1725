use vstd::prelude::*;
use vstd::pervasive::unreached;
use vstd::string::StringExecFns;
use crate::text::{lowercase, str_eq, to_lowercase};

verus! {

/// A blockchain that speaks the Ethereum node protocol.
#[derive(Clone, Copy, Debug, PartialEq, Eq, Structural)]
pub enum EthereumChain {
    AvalancheC,
    BinanceSmartChain,
    Ethereum,
    Moonriver,
    Moonbeam,
}

/// The chain that a lower-case identifier stands for.
pub open spec fn chain_of_identifier(s: Seq<char>) -> Option<EthereumChain> {
    if s == "avac"@ || s == "avax-c"@ || s == "avalanche-c"@ {
        Some(EthereumChain::AvalancheC)
    } else if s == "bsc"@ || s == "binancesmartchain"@ {
        Some(EthereumChain::BinanceSmartChain)
    } else if s == "eth"@ || s == "ethereum"@ {
        Some(EthereumChain::Ethereum)
    } else if s == "moonriver"@ || s == "movr"@ {
        Some(EthereumChain::Moonriver)
    } else if s == "moonbeam"@ || s == "glmr"@ {
        Some(EthereumChain::Moonbeam)
    } else {
        None
    }
}

impl EthereumChain {
    /// The canonical name of the chain.
    pub open spec fn name(&self) -> Seq<char> {
        match *self {
            EthereumChain::AvalancheC => "Avalanche-C"@,
            EthereumChain::BinanceSmartChain => "BSC"@,
            EthereumChain::Ethereum => "Ethereum"@,
            EthereumChain::Moonriver => "Moonriver"@,
            EthereumChain::Moonbeam => "Moonbeam"@,
        }
    }

    /// The trading symbol of the chain's native coin.
    pub open spec fn trading_symbol(&self) -> Seq<char> {
        match *self {
            EthereumChain::AvalancheC => "AVAX"@,
            EthereumChain::BinanceSmartChain => "BNB"@,
            EthereumChain::Ethereum => "ETH"@,
            EthereumChain::Moonriver => "MOVR"@,
            EthereumChain::Moonbeam => "GLMR"@,
        }
    }

    /// The chain that a lower-case identifier stands for, if it stands for one.
    pub fn from_identifier(identifier: &str) -> (chain: Option<EthereumChain>)
        ensures
            chain == chain_of_identifier(identifier@),
    {
        if str_eq(identifier, "avac") || str_eq(identifier, "avax-c") || str_eq(
            identifier,
            "avalanche-c",
        ) {
            Some(EthereumChain::AvalancheC)
        } else if str_eq(identifier, "bsc") || str_eq(identifier, "binancesmartchain") {
            Some(EthereumChain::BinanceSmartChain)
        } else if str_eq(identifier, "eth") || str_eq(identifier, "ethereum") {
            Some(EthereumChain::Ethereum)
        } else if str_eq(identifier, "moonriver") || str_eq(identifier, "movr") {
            Some(EthereumChain::Moonriver)
        } else if str_eq(identifier, "moonbeam") || str_eq(identifier, "glmr") {
            Some(EthereumChain::Moonbeam)
        } else {
            None
        }
    }

    /// The chain that `s` names, whatever the case of its letters.
    pub fn from_str(s: &str) -> (chain: EthereumChain)
        requires
            chain_of_identifier(lowercase(s@)) is Some,
        ensures
            Some(chain) == chain_of_identifier(lowercase(s@)),
    {
        let lower = to_lowercase(s);
        match EthereumChain::from_identifier(lower.as_str()) {
            Some(chain) => chain,
            None => unreached(),
        }
    }

    /// The chain that `s` names, whatever the case of its letters, or `None`
    /// where it names none.
    pub fn parse(s: &str) -> (chain: Option<EthereumChain>)
        ensures
            chain == chain_of_identifier(lowercase(s@)),
    {
        let lower = to_lowercase(s);
        if EthereumChain::from_identifier(lower.as_str()).is_some() {
            Some(EthereumChain::from_str(s))
        } else {
            None
        }
    }

    /// The canonical name of the chain.
    pub fn to_str(&self) -> (name: &str)
        ensures
            name@ == self.name(),
    {
        match *self {
            EthereumChain::AvalancheC => "Avalanche-C",
            EthereumChain::BinanceSmartChain => "BSC",
            EthereumChain::Ethereum => "Ethereum",
            EthereumChain::Moonriver => "Moonriver",
            EthereumChain::Moonbeam => "Moonbeam",
        }
    }

    /// The trading symbol of the chain's native coin.
    pub fn to_trading_symbol(&self) -> (symbol: String)
        ensures
            symbol@ == self.trading_symbol(),
    {
        String::from_str(
            match *self {
                EthereumChain::AvalancheC => "AVAX",
                EthereumChain::BinanceSmartChain => "BNB",
                EthereumChain::Ethereum => "ETH",
                EthereumChain::Moonriver => "MOVR",
                EthereumChain::Moonbeam => "GLMR",
            },
        )
    }
}

/// The address of a wallet or of a contract: twenty bytes.
#[derive(Clone, Copy, Debug, PartialEq, Eq)]
pub struct Address {
    pub bytes: [u8; 20],
}

/// An endpoint that answers for a chain. Several nodes may serve one chain.
pub struct EthereumNode {
    pub chain: EthereumChain,
    pub url: String,
}

} // verus!
