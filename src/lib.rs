//! A collateralized-debt-position engine for a two-stablecoin protocol,
//! with the fungible ledgers and the price oracle it runs on.
pub mod arith;
pub mod collateral_engine;
pub mod laws;
pub mod origin;
pub mod storage;
pub mod orium_token;
pub mod table;
