//! Wallet binding: composes a loaded ledger with a wallet runtime instance
//! into one handle whose two storage paths come from a single configuration
//! pass.

use vstd::prelude::*;

verus! {

/// What the external wallet-runtime constructor hands back: the storage
/// path the runtime chose for itself and its detached in-memory state `W`.
/// Key derivation and transaction building live behind `W` and are opaque
/// to this core.
#[derive(Clone, Debug, PartialEq, Eq)]
pub struct BpRuntime<W> {
    /// The runtime's own storage path.
    pub path: String,
    /// The runtime's detached in-memory state.
    pub state: W,
}

/// A ledger and a wallet runtime bound into one handle. The handle owns no
/// persistence of its own: it is a view over the two stores, kept
/// path-consistent by construction.
#[derive(Clone, Debug, PartialEq, Eq)]
pub struct StoredWallet<L, W> {
    /// The directory the ledger persists under.
    pub stock_path: String,
    /// The path the wallet runtime persists under.
    pub wallet_path: String,
    /// The in-memory ledger.
    pub stock: L,
    /// The detached wallet runtime state.
    pub wallet: W,
}

impl<L, W> StoredWallet<L, W> {
    /// Binds a ledger and a detached wallet runtime to their two paths.
    pub fn attach(stock_path: String, wallet_path: String, stock: L, wallet: W) -> (r: Self)
        ensures
            r.stock_path == stock_path,
            r.wallet_path == wallet_path,
            r.stock == stock,
            r.wallet == wallet,
    {
        StoredWallet { stock_path, wallet_path, stock, wallet }
    }
}

} // verus!
