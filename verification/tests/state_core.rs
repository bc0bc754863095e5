use rgb_wallet::args::RgbArgs;
use rgb_wallet::descriptor::DescrRgbOpts;
use rgb_wallet::descriptor::RgbDescr;
use rgb_wallet::error::Network;
use rgb_wallet::error::WalletError;
use rgb_wallet::resolver::AnyResolver;
use rgb_wallet::resolver::Backend;
use rgb_wallet::resolver::ProbeOutcome;
use rgb_wallet::resolver::ResolverOpts;
use rgb_wallet::resolver::ResolverSource;
use rgb_wallet::resolver::finish_resolver;
use rgb_wallet::resolver::select_resolver;
use rgb_wallet::stock::FileState;
use rgb_wallet::stock::LoadOutcome;
use rgb_wallet::stock::MemStore;
use rgb_wallet::stock::resolve_load;
use rgb_wallet::wallet::BpRuntime;

fn no_endpoints() -> ResolverOpts {
    ResolverOpts { electrum: None, esplora: None, mempool: None }
}

fn args_with(resolver: ResolverOpts, network: Network) -> RgbArgs<String> {
    RgbArgs {
        verbose: 0,
        network,
        base_dir: String::from("data/testnet3"),
        descr: DescrRgbOpts { tapret_key_only: None, wpkh: None },
        resolver,
    }
}

#[test]
fn first_run_creates_default_ledger() {
    let args = args_with(no_endpoints(), Network::Testnet3);
    let mut store = MemStore::<u64>::new(FileState::Absent);
    let first = args.load_stock(&mut store, 42);
    assert_eq!(first, Ok(42));
    assert_eq!(store.file, FileState::Valid(42));
    assert!(store.dir_exists);
    assert_eq!(store.reads, 1);
    assert_eq!(store.writes, 1);
}

#[test]
fn second_load_yields_equal_ledger_without_new_write() {
    let args = args_with(no_endpoints(), Network::Testnet3);
    let mut store = MemStore::<u64>::new(FileState::Absent);
    let first = args.load_stock(&mut store, 42);
    let second = args.load_stock(&mut store, 42);
    assert_eq!(first, second);
    assert_eq!(store.reads, 2);
    assert_eq!(store.writes, 1);
    assert_eq!(store.file, FileState::Valid(42));
}

#[test]
fn valid_ledger_is_loaded_without_side_effects() {
    let args = args_with(no_endpoints(), Network::Testnet3);
    let mut store = MemStore::<u64>::new(FileState::Valid(7));
    let loaded = args.load_stock(&mut store, 42);
    assert_eq!(loaded, Ok(7));
    assert_eq!(store.writes, 0);
    assert_eq!(store.file, FileState::Valid(7));
}

#[test]
fn damaged_ledger_fails_and_stays_untouched() {
    let args = args_with(no_endpoints(), Network::Testnet3);
    let message = String::from("unexpected trailing byte");
    let mut store = MemStore::<u64>::new(FileState::Damaged(message.clone()));
    let loaded = args.load_stock(&mut store, 42);
    assert_eq!(loaded, Err(WalletError::Deserialize(message.clone())));
    assert_eq!(store.file, FileState::Damaged(message));
    assert_eq!(store.writes, 0);
}

#[test]
fn io_failure_propagates_verbatim() {
    let outcome = LoadOutcome::<u64>::Io(String::from("permission denied"));
    let decided = resolve_load(outcome, 42);
    assert_eq!(decided, Err(WalletError::Io(String::from("permission denied"))));
}

#[test]
fn absent_outcome_asks_for_one_persist() {
    let decided = resolve_load(LoadOutcome::<u64>::Absent, 42);
    assert_eq!(decided, Ok((42, true)));
    let decided = resolve_load(LoadOutcome::<u64>::Loaded(7), 42);
    assert_eq!(decided, Ok((7, false)));
}

#[test]
fn rgb_stock_attaches_base_dir() {
    let args = args_with(no_endpoints(), Network::Testnet3);
    let mut store = MemStore::<u64>::new(FileState::Valid(7));
    let stored = args.rgb_stock(&mut store, 42).unwrap();
    assert_eq!(stored.stock_path, String::from("data/testnet3"));
    assert_eq!(stored.stock, 7);
}

#[test]
fn bind_from_loaded_ledger_reads_nothing() {
    let args = args_with(no_endpoints(), Network::Testnet3);
    let mut store = MemStore::<u64>::new(FileState::Valid(7));
    let stock = args.load_stock(&mut store, 42).unwrap();
    assert_eq!(store.reads, 1);
    let runtime = Ok(BpRuntime { path: String::from("data/testnet3/wallet"), state: 9u8 });
    let bound = args.rgb_wallet_from_stock(runtime, stock).unwrap();
    assert_eq!(store.reads, 1);
    assert_eq!(store.writes, 0);
    assert_eq!(bound.stock_path, String::from("data/testnet3"));
    assert_eq!(bound.wallet_path, String::from("data/testnet3/wallet"));
    assert_eq!(bound.stock, 7);
    assert_eq!(bound.wallet, 9u8);
}

#[test]
fn rgb_wallet_loads_then_binds() {
    let args = args_with(no_endpoints(), Network::Testnet3);
    let mut store = MemStore::<u64>::new(FileState::Absent);
    let runtime = Ok(BpRuntime { path: String::from("data/testnet3/wallet"), state: 9u8 });
    let bound = args.rgb_wallet(&mut store, 42, runtime).unwrap();
    assert_eq!(store.reads, 1);
    assert_eq!(store.writes, 1);
    assert_eq!(bound.stock, 42);
    assert_eq!(bound.stock_path, String::from("data/testnet3"));
    assert_eq!(bound.wallet_path, String::from("data/testnet3/wallet"));
}

#[test]
fn rgb_wallet_surfaces_load_failure_first() {
    let args = args_with(no_endpoints(), Network::Testnet3);
    let message = String::from("unexpected trailing byte");
    let mut store = MemStore::<u64>::new(FileState::Damaged(message.clone()));
    let runtime: Result<BpRuntime<u8>, WalletError> =
        Err(WalletError::Io(String::from("wallet file missing")));
    let bound = args.rgb_wallet(&mut store, 42, runtime);
    assert_eq!(bound, Err(WalletError::Deserialize(message)));
}

#[test]
fn runtime_failure_propagates_unchanged() {
    let args = args_with(no_endpoints(), Network::Testnet3);
    let failure = WalletError::Io(String::from("wallet file missing"));
    let bound = args.rgb_wallet_from_stock::<u64, u8>(Err(failure.clone()), 7);
    assert_eq!(bound, Err(failure));
}

#[test]
fn resolver_matches_network() {
    let opts = ResolverOpts {
        electrum: Some(String::from("ssl://electrum.example:50002")),
        esplora: None,
        mempool: None,
    };
    let args = args_with(opts, Network::Testnet3);
    let resolver = args.resolver(ProbeOutcome::Reported(Network::Testnet3)).unwrap();
    assert_eq!(
        resolver,
        AnyResolver {
            backend: Backend::Electrum,
            url: String::from("ssl://electrum.example:50002"),
            network: Network::Testnet3,
        }
    );
}

#[test]
fn zero_and_two_endpoints_share_the_arity_error() {
    let none = select_resolver(ResolverOpts { electrum: None, esplora: None, mempool: None });
    let two = select_resolver(ResolverOpts {
        electrum: Some(String::from("ssl://electrum.example:50002")),
        esplora: Some(String::from("https://esplora.example")),
        mempool: None,
    });
    let none_err = none.unwrap_err();
    let two_err = two.unwrap_err();
    assert!(matches!(none_err, WalletError::Resolver(_)));
    assert!(matches!(two_err, WalletError::Resolver(_)));
    assert_eq!(none_err, two_err);
}

#[test]
fn each_single_endpoint_selects_its_backend() {
    let electrum = select_resolver(ResolverOpts {
        electrum: Some(String::from("e")),
        esplora: None,
        mempool: None,
    });
    assert_eq!(
        electrum,
        Ok(ResolverSource { backend: Backend::Electrum, url: String::from("e") })
    );
    let esplora = select_resolver(ResolverOpts {
        electrum: None,
        esplora: Some(String::from("s")),
        mempool: None,
    });
    assert_eq!(
        esplora,
        Ok(ResolverSource { backend: Backend::Esplora, url: String::from("s") })
    );
    let mempool = select_resolver(ResolverOpts {
        electrum: None,
        esplora: None,
        mempool: Some(String::from("m")),
    });
    assert_eq!(
        mempool,
        Ok(ResolverSource { backend: Backend::Mempool, url: String::from("m") })
    );
}

#[test]
fn wrong_chain_is_a_distinct_mismatch_error() {
    let opts = ResolverOpts {
        electrum: None,
        esplora: Some(String::from("https://esplora.example")),
        mempool: None,
    };
    let args = args_with(opts, Network::Testnet3);
    let err = args.resolver(ProbeOutcome::Reported(Network::Mainnet)).unwrap_err();
    assert_eq!(
        err,
        WalletError::NetworkMismatch { expected: Network::Testnet3, found: Network::Mainnet }
    );
    let arity = args_with(no_endpoints(), Network::Testnet3)
        .resolver(ProbeOutcome::Reported(Network::Mainnet))
        .unwrap_err();
    assert!(matches!(err, WalletError::NetworkMismatch { .. }));
    assert!(matches!(arity, WalletError::Resolver(_)));
    assert_ne!(err, arity);
}

#[test]
fn failed_backend_session_keeps_its_message() {
    let source =
        ResolverSource { backend: Backend::Mempool, url: String::from("https://mempool.example") };
    let failed = finish_resolver(
        source,
        Network::Signet,
        ProbeOutcome::Failed(String::from("connection refused")),
    );
    assert_eq!(failed, Err(WalletError::Resolver(String::from("connection refused"))));
}

#[test]
fn tapret_key_wins_over_wpkh() {
    let both = DescrRgbOpts {
        tapret_key_only: Some(String::from("xpub-a")),
        wpkh: Some(String::from("xpub-b")),
    };
    assert!(both.is_some());
    assert_eq!(both.descriptor(), Some(RgbDescr::TapretKey(String::from("xpub-a"))));
}

#[test]
fn wpkh_alone_selects_wpkh() {
    let wpkh_only =
        DescrRgbOpts { tapret_key_only: None, wpkh: Some(String::from("xpub-b")) };
    assert!(wpkh_only.is_some());
    assert_eq!(wpkh_only.descriptor(), Some(RgbDescr::Wpkh(String::from("xpub-b"))));
}

#[test]
fn no_key_means_no_descriptor() {
    let neither: DescrRgbOpts<String> = DescrRgbOpts { tapret_key_only: None, wpkh: None };
    assert!(!neither.is_some());
    assert_eq!(neither.descriptor(), None);
}
