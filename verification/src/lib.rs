//! Answers to account requests of an RPC service that keeps its accounts in a database.
pub mod account;
pub mod error;
pub mod filter;
pub mod laws;
pub mod lookup;
pub mod outside;
pub mod processor;
pub mod types;
