use vstd::prelude::*;
use crate::decimal::Decimal;

verus! {

/// An account as the configuration file states it: its kind, and what that
/// kind needs of the rest.
pub struct Account {
    pub kind: String,
    pub api_key: Option<String>,
    pub api_secret: Option<String>,
    pub address: Option<String>,
    pub refresh_token: Option<String>,
    pub account_id: Option<String>,
}

/// A fund as the configuration file states it: its accounts by name.
pub struct Fund {
    pub name: String,
    pub icon: Option<String>,
    pub accounts: Vec<String>,
    pub target_size: Option<Decimal>,
}

/// The configuration file. Accounts are listed by name; smart contracts by
/// chain, then by protocol; nodes by chain, each with its address.
pub struct Configuration {
    pub accounts: Vec<(String, Account)>,
    pub funds: Vec<Fund>,
    pub smart_contracts: Vec<(String, Vec<(String, Vec<String>)>)>,
    pub nodes: Vec<(String, String)>,
    pub clients: Option<Vec<String>>,
    pub port: u16,
    pub nordigen_cache_hours: Option<u64>,
    pub listen_address: String,
}

} // verus!
