//! The error taxonomy of the state core, and the network identifier that
//! ledger, wallet and resolver must all agree on.

use vstd::prelude::*;

verus! {

/// The target chain that the ledger, the wallet and the resolver are
/// expected to share.
#[derive(Clone, Copy, Debug, PartialEq, Eq, Structural)]
pub enum Network {
    Mainnet,
    Testnet3,
    Testnet4,
    Signet,
    Regtest,
}

/// A fatal failure of the state core.
///
/// Storage failures keep the message of the codec or of the operating system
/// verbatim; resolver failures distinguish a misconfigured backend choice
/// (`Resolver`) from a backend that answers for the wrong chain
/// (`NetworkMismatch`).
#[derive(Clone, Debug, PartialEq, Eq)]
pub enum WalletError {
    /// The ledger file is present but cannot be decoded; recovery is never
    /// attempted.
    Deserialize(String),
    /// An input/output failure other than "not found" during load, create or
    /// persist.
    Io(String),
    /// No backend endpoint, more than one backend endpoint, or a backend
    /// client that could not be constructed.
    Resolver(String),
    /// The constructed backend reports a different chain than the one the
    /// caller configured.
    NetworkMismatch { expected: Network, found: Network },
}

} // verus!
