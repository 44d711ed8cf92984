//! A minimal append-only ledger secured by a proof-of-work puzzle.
//!
//! A block becomes final once a bounded search over its nonce has ended,
//! either on a digest with enough leading zeros or on the attempt cap, and
//! every block after the genesis block names the hash of its predecessor.

pub mod block;
pub mod calendar;
pub mod chain;
pub mod clock;
pub mod difficulty;
pub mod digest;
pub mod encoding;
pub mod miner;
