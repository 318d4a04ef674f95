//! Wallets (mining clubs) and their miners: joins, lookups, aggregation and
//! record creation over rows read from a relational store.

pub mod id;
pub mod store;
pub mod miner;
pub mod wallet;
pub mod laws;
