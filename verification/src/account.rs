use vstd::prelude::*;
use crate::ethereum::{Address, EthereumChain};

verus! {

/// A wallet on a blockchain.
pub struct EthereumAccount {
    pub name: String,
    pub chain: EthereumChain,
    pub wallet_address: Address,
}

/// An account at the Kraken exchange, reached with an API key.
pub struct KrakenAccount {
    pub name: String,
    pub api_key: String,
    pub api_secret: String,
}

/// A bank account reached through Nordigen.
pub struct NordigenAccount {
    pub name: String,
    pub refresh_token: String,
    pub account_id: String,
}

/// A brokerage account at Scalable Capital.
pub struct ScalableAccount {
    pub name: String,
    pub email: String,
    pub password: String,
}

/// A source of holdings, with what is needed to ask it.
pub enum Account {
    Ethereum(EthereumAccount),
    Kraken(KrakenAccount),
    Nordigen(NordigenAccount),
    Scalable(ScalableAccount),
}

impl Clone for EthereumAccount {
    fn clone(&self) -> (copy: EthereumAccount)
        ensures
            copy == *self,
    {
        EthereumAccount {
            name: self.name.clone(),
            chain: self.chain,
            wallet_address: self.wallet_address,
        }
    }
}

impl Clone for KrakenAccount {
    fn clone(&self) -> (copy: KrakenAccount)
        ensures
            copy == *self,
    {
        KrakenAccount {
            name: self.name.clone(),
            api_key: self.api_key.clone(),
            api_secret: self.api_secret.clone(),
        }
    }
}

impl Clone for NordigenAccount {
    fn clone(&self) -> (copy: NordigenAccount)
        ensures
            copy == *self,
    {
        NordigenAccount {
            name: self.name.clone(),
            refresh_token: self.refresh_token.clone(),
            account_id: self.account_id.clone(),
        }
    }
}

impl Clone for ScalableAccount {
    fn clone(&self) -> (copy: ScalableAccount)
        ensures
            copy == *self,
    {
        ScalableAccount {
            name: self.name.clone(),
            email: self.email.clone(),
            password: self.password.clone(),
        }
    }
}

impl Clone for Account {
    fn clone(&self) -> (copy: Account)
        ensures
            copy == *self,
    {
        match self {
            Account::Ethereum(account) => Account::Ethereum(account.clone()),
            Account::Kraken(account) => Account::Kraken(account.clone()),
            Account::Nordigen(account) => Account::Nordigen(account.clone()),
            Account::Scalable(account) => Account::Scalable(account.clone()),
        }
    }
}

} // verus!
