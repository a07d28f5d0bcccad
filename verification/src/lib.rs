//! A token faucet for Solana: its programs' decisions, its on-chain data formats and the
//! instructions its client sends, with their contracts.
pub mod address;
pub mod client;
pub mod error;
pub mod genesis;
pub mod instruction;
pub mod processor;
pub mod runtime;
pub mod state;
