//! Core logic of a cross-chain bridge relayer.
//!
//! The library keeps two chains' mutual light clients and message lanes in
//! sync: it accounts for nonce-ordered message delivery and confirmation,
//! plans threshold-ECDSA attestations of cross-chain commitments, and drives
//! the cursor/backoff machinery that makes every long-running loop safe to
//! restart.  All chain I/O is left to the caller: each function here takes
//! the freshly read chain state as plain values and returns the next action.

pub mod affirm;
pub mod bytes;
pub mod codec;
pub mod config;
pub mod crypto;
pub mod delivery;
pub mod error;
pub mod etherscan;
pub mod feemarket;
pub mod header_sync;
pub mod indexer;
pub mod lane;
pub mod message_client;
pub mod relay;
pub mod scanner;
pub mod supervisor;
pub mod tracker;
