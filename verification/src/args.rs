//! The configured invocation: verbosity, network, the ledger's base
//! directory, descriptor choice and resolver endpoints, with the operations
//! that load the ledger, bind the wallet and select the resolver.

use vstd::prelude::*;

use crate::descriptor::DescrRgbOpts;
use crate::error::Network;
use crate::error::WalletError;
use crate::resolver::AnyResolver;
use crate::resolver::ProbeOutcome;
use crate::resolver::ResolverOpts;
use crate::resolver::chosen_backend;
use crate::resolver::chosen_url;
use crate::resolver::exactly_one_endpoint;
use crate::resolver::finish_resolver;
use crate::resolver::no_resolver_note;
use crate::resolver::select_resolver;
use crate::stock::MemStore;
use crate::stock::StoredStock;
use crate::stock::load_stock_result;
use crate::stock::resolve_load;
use crate::stock::state_after_load;
use crate::stock::writes_of_load;
use crate::wallet::BpRuntime;
use crate::wallet::StoredWallet;

verus! {

/// One configuration pass over the state core: everything the operations
/// below read. The verbosity level only steers the caller's diagnostic
/// text; it never changes control flow here.
#[derive(Clone, Debug, PartialEq, Eq)]
pub struct RgbArgs<K> {
    /// Diagnostic verbosity, a side channel for the caller's output.
    pub verbose: u8,
    /// The chain that ledger, wallet and resolver must agree on.
    pub network: Network,
    /// The base directory that holds the ledger and anchors the wallet
    /// runtime's own path.
    pub base_dir: String,
    /// The descriptor choice, at most one of two variants.
    pub descr: DescrRgbOpts<K>,
    /// The resolver endpoints, exactly one of three.
    pub resolver: ResolverOpts,
}

/// `r` equals `o`, element for element.
fn clone_opt_string(o: &Option<String>) -> (r: Option<String>)
    ensures
        r == *o,
{
    match o {
        None => None,
        Some(s) => Some(s.clone()),
    }
}

impl<K> RgbArgs<K> {
    /// Loads the ledger from the store, creating and persisting a default
    /// one when nothing exists there yet. A file that exists but fails to
    /// decode is surfaced verbatim and never overwritten; the one write, and
    /// the directory creation, happen only on the first-run branch.
    pub fn load_stock<L: Copy>(&self, store: &mut MemStore<L>, default: L) -> (r: Result<
        L,
        WalletError,
    >)
        requires
            old(store).reads < u64::MAX,
            old(store).writes < u64::MAX,
        ensures
            r == load_stock_result(old(store).file, default),
            final(store).file == state_after_load(old(store).file, default),
            final(store).reads == old(store).reads + 1,
            final(store).writes == old(store).writes + writes_of_load(old(store).file),
            final(store).dir_exists == (old(store).dir_exists || old(store).file is Absent),
    {
        let outcome = store.load();
        match resolve_load(outcome, default) {
            Ok((ledger, persist)) => {
                if persist {
                    store.create_dir_all();
                    store.store_file(ledger);
                }
                Ok(ledger)
            },
            Err(e) => Err(e),
        }
    }

    /// Loads the ledger as [`Self::load_stock`] does and attaches it to the
    /// base directory it persists under.
    pub fn rgb_stock<L: Copy>(&self, store: &mut MemStore<L>, default: L) -> (r: Result<
        StoredStock<L>,
        WalletError,
    >)
        requires
            old(store).reads < u64::MAX,
            old(store).writes < u64::MAX,
        ensures
            final(store).file == state_after_load(old(store).file, default),
            final(store).reads == old(store).reads + 1,
            final(store).writes == old(store).writes + writes_of_load(old(store).file),
            final(store).dir_exists == (old(store).dir_exists || old(store).file is Absent),
            load_stock_result(old(store).file, default) matches Ok(l) ==> r == (Ok::<
                StoredStock<L>,
                WalletError,
            >(StoredStock { stock_path: self.base_dir, stock: l })),
            load_stock_result(old(store).file, default) matches Err(e) ==> r == (Err::<
                StoredStock<L>,
                WalletError,
            >(e)),
    {
        match self.load_stock(store, default) {
            Ok(stock) => Ok(StoredStock::attach(self.base_dir.clone(), stock)),
            Err(e) => Err(e),
        }
    }

    /// Binds an already-loaded ledger to the wallet runtime the external
    /// constructor produced. No store is consulted: reusing a ledger across
    /// bindings never re-reads it. Both paths of the handle come from this
    /// one configuration pass — the ledger's from the base directory, the
    /// runtime's from the runtime itself — and a failed runtime construction
    /// is propagated unchanged.
    pub fn rgb_wallet_from_stock<L, W>(
        &self,
        runtime: Result<BpRuntime<W>, WalletError>,
        stock: L,
    ) -> (r: Result<StoredWallet<L, W>, WalletError>)
        ensures
            runtime matches Ok(rt) ==> r == (Ok::<StoredWallet<L, W>, WalletError>(
                StoredWallet {
                    stock_path: self.base_dir,
                    wallet_path: rt.path,
                    stock: stock,
                    wallet: rt.state,
                },
            )),
            runtime matches Err(e) ==> r == (Err::<StoredWallet<L, W>, WalletError>(e)),
    {
        match runtime {
            Ok(rt) => Ok(
                StoredWallet::attach(self.base_dir.clone(), rt.path, stock, rt.state),
            ),
            Err(e) => Err(e),
        }
    }

    /// Loads the ledger from the store and binds it to the wallet runtime:
    /// the entry point for callers that do not hold a loaded ledger yet.
    /// Store effects are those of one [`Self::load_stock`]; a load failure
    /// wins over a runtime failure, and each is propagated unchanged.
    pub fn rgb_wallet<L: Copy, W>(
        &self,
        store: &mut MemStore<L>,
        default: L,
        runtime: Result<BpRuntime<W>, WalletError>,
    ) -> (r: Result<StoredWallet<L, W>, WalletError>)
        requires
            old(store).reads < u64::MAX,
            old(store).writes < u64::MAX,
        ensures
            final(store).file == state_after_load(old(store).file, default),
            final(store).reads == old(store).reads + 1,
            final(store).writes == old(store).writes + writes_of_load(old(store).file),
            final(store).dir_exists == (old(store).dir_exists || old(store).file is Absent),
            load_stock_result(old(store).file, default) matches Err(e) ==> r == (Err::<
                StoredWallet<L, W>,
                WalletError,
            >(e)),
            load_stock_result(old(store).file, default) matches Ok(l) ==> (runtime matches Ok(rt)
                ==> r == (Ok::<StoredWallet<L, W>, WalletError>(
                StoredWallet {
                    stock_path: self.base_dir,
                    wallet_path: rt.path,
                    stock: l,
                    wallet: rt.state,
                },
            ))),
            load_stock_result(old(store).file, default) is Ok ==> (runtime matches Err(e) ==> r
                == (Err::<StoredWallet<L, W>, WalletError>(e))),
    {
        match self.load_stock(store, default) {
            Ok(stock) => self.rgb_wallet_from_stock(runtime, stock),
            Err(e) => Err(e),
        }
    }

    /// Selects the one configured backend and validates the caller's
    /// backend session against the configured network. Zero or several
    /// endpoints are the uniform arity misconfiguration; a session for the
    /// wrong chain is the distinct network mismatch; a session for the
    /// configured chain yields the resolver bound to that chain.
    pub fn resolver(&self, probe: ProbeOutcome) -> (r: Result<AnyResolver, WalletError>)
        ensures
            !exactly_one_endpoint(self.resolver) ==> (r matches Err(WalletError::Resolver(m))
                && m@ == no_resolver_note()),
            exactly_one_endpoint(self.resolver) ==> (probe matches ProbeOutcome::Reported(found)
                ==> (found == self.network ==> r == (Ok::<AnyResolver, WalletError>(
                AnyResolver {
                    backend: chosen_backend(self.resolver),
                    url: chosen_url(self.resolver),
                    network: self.network,
                },
            )))),
            exactly_one_endpoint(self.resolver) ==> (probe matches ProbeOutcome::Reported(found)
                ==> (found != self.network ==> r == (Err::<AnyResolver, WalletError>(
                WalletError::NetworkMismatch { expected: self.network, found },
            )))),
            exactly_one_endpoint(self.resolver) ==> (probe matches ProbeOutcome::Failed(m) ==> r
                == (Err::<AnyResolver, WalletError>(WalletError::Resolver(m)))),
    {
        let opts = ResolverOpts {
            electrum: clone_opt_string(&self.resolver.electrum),
            esplora: clone_opt_string(&self.resolver.esplora),
            mempool: clone_opt_string(&self.resolver.mempool),
        };
        match select_resolver(opts) {
            Ok(source) => finish_resolver(source, self.network, probe),
            Err(e) => Err(e),
        }
    }
}

} // verus!
