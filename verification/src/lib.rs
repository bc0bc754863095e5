//! Durable state core for an RGB contract ledger and its bound wallet.
//!
//! Three concerns live here, each with its own failure modes:
//! filesystem persistence of the contract ledger ("stock") with transparent
//! first-run initialization, composition of a loaded ledger with a wallet
//! runtime into one path-consistent handle, and mutually exclusive selection
//! of a blockchain data backend validated against the configured network.
//!
//! The collaborators that read disks and talk to backends are opaque to this
//! core: every operation here is a decision over plain values, so the caller
//! performs the I/O and hands the outcome back in.

pub mod args;
pub mod descriptor;
pub mod error;
pub mod resolver;
pub mod stock;
pub mod wallet;
