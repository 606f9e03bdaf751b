//! Wallet Standard bindings for Solana wallets: the verified decisions behind
//! discovery, connection, signing, error reporting and the JSON-RPC client.

pub mod base58;
pub mod context;
pub mod discovery;
pub mod error;
pub mod features;
pub mod laws;
pub mod rpc;
pub mod text;
pub mod transfer;
pub mod tx;
pub mod wallet;

pub use error::{Error, Result};
