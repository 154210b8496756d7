//! Per-swap wallet coordination for trustless cross-chain atomic swaps.
//!
//! The crate models the wallet daemon of a swap node: a coordinator that
//! classifies inbound requests by logical channel, drives the per-role
//! commit -> reveal -> arbitrating-setup -> refund/buy-signature handshake,
//! and keeps a registry of per-swap wallet states.  Cryptographic operations
//! are delegated to the swap protocol engine behind a narrow trusted
//! boundary; everything the coordinator decides is verified.

pub mod config;
pub mod engine;
pub mod registry;
pub mod rpc;
pub mod syncerd;
pub mod types;
pub mod walletd;
