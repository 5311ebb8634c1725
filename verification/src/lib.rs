pub mod account;
pub mod api;
pub mod asset;
pub mod blockchain;
pub mod config;
pub mod credential;
pub mod cryptoprice;
pub mod decimal;
pub mod domainconfig;
pub mod error;
pub mod ethereum;
pub mod gather;
pub mod growth;
pub mod json;
pub mod kraken;
pub mod nordigen;
pub mod parse;
pub mod scalable;
pub mod table;
pub mod text;
