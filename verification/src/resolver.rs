//! Resolver selection: picks exactly one blockchain data backend from the
//! configuration and validates the constructed client against the configured
//! network.
//!
//! Constructing a blocking client and asking it which chain it serves are
//! the backend's own work; the caller performs that session and hands its
//! outcome back as a [`ProbeOutcome`]. Everything decided here — the
//! exactly-one arity rule and the network check — is a function of plain
//! values.

use vstd::prelude::*;

use crate::error::Network;
use crate::error::WalletError;

verus! {

/// The three supported backend kinds.
#[derive(Clone, Copy, Debug, PartialEq, Eq, Structural)]
pub enum Backend {
    Electrum,
    Esplora,
    Mempool,
}

/// The mutually exclusive backend endpoints a caller may configure: exactly
/// one may be present.
#[derive(Clone, Debug, PartialEq, Eq)]
pub struct ResolverOpts {
    /// URL of an Electrum server.
    pub electrum: Option<String>,
    /// URL of an Esplora server.
    pub esplora: Option<String>,
    /// URL of a Mempool server.
    pub mempool: Option<String>,
}

/// The one backend the configuration selects: its kind and its URL.
#[derive(Clone, Debug, PartialEq, Eq)]
pub struct ResolverSource {
    pub backend: Backend,
    pub url: String,
}

/// What the backend session reported: the chain the constructed client
/// serves, or the message of a client that could not be constructed or
/// asked.
#[derive(Clone, Debug, PartialEq, Eq)]
pub enum ProbeOutcome {
    Reported(Network),
    Failed(String),
}

/// A constructed resolver: the backend it was built for and the network it
/// was validated to serve.
#[derive(Clone, Debug, PartialEq, Eq)]
pub struct AnyResolver {
    pub backend: Backend,
    pub url: String,
    pub network: Network,
}

/// How many backend endpoints the configuration sets.
pub open spec fn endpoint_count(opts: ResolverOpts) -> int {
    (if opts.electrum is Some {
        1int
    } else {
        0int
    }) + (if opts.esplora is Some {
        1int
    } else {
        0int
    }) + (if opts.mempool is Some {
        1int
    } else {
        0int
    })
}

/// The exactly-one arity rule over the three endpoints.
pub open spec fn exactly_one_endpoint(opts: ResolverOpts) -> bool {
    endpoint_count(opts) == 1
}

/// The kind of the one configured backend.
pub open spec fn chosen_backend(opts: ResolverOpts) -> Backend
    recommends
        exactly_one_endpoint(opts),
{
    if opts.electrum is Some {
        Backend::Electrum
    } else if opts.esplora is Some {
        Backend::Esplora
    } else {
        Backend::Mempool
    }
}

/// The URL of the one configured backend.
pub open spec fn chosen_url(opts: ResolverOpts) -> String
    recommends
        exactly_one_endpoint(opts),
{
    if opts.electrum is Some {
        opts.electrum.unwrap()
    } else if opts.esplora is Some {
        opts.esplora.unwrap()
    } else {
        opts.mempool.unwrap()
    }
}

/// The uniform diagnostic for the zero-endpoint and the many-endpoint
/// misconfiguration: the arity rule is the source of truth, not which
/// combination broke it.
pub open spec fn no_resolver_note() -> Seq<char> {
    "no transaction resolver is specified; use exactly one of the electrum, esplora or mempool endpoints"@
}

/// Picks the one backend the configuration names. Zero endpoints and more
/// than one endpoint are the same misconfiguration, reported under the same
/// error class with the same guidance.
pub fn select_resolver(opts: ResolverOpts) -> (r: Result<ResolverSource, WalletError>)
    ensures
        exactly_one_endpoint(opts) ==> r == (Ok::<ResolverSource, WalletError>(
            ResolverSource { backend: chosen_backend(opts), url: chosen_url(opts) },
        )),
        !exactly_one_endpoint(opts) ==> (r matches Err(WalletError::Resolver(m))
            && m@ == no_resolver_note()),
{
    match (opts.esplora, opts.electrum, opts.mempool) {
        (None, Some(url), None) => Ok(ResolverSource { backend: Backend::Electrum, url }),
        (Some(url), None, None) => Ok(ResolverSource { backend: Backend::Esplora, url }),
        (None, None, Some(url)) => Ok(ResolverSource { backend: Backend::Mempool, url }),
        _ => Err(WalletError::Resolver(String::from_str(
            "no transaction resolver is specified; use exactly one of the electrum, esplora or mempool endpoints",
        ))),
    }
}

/// Validates a constructed backend against the configured network. A failed
/// session keeps its message under the resolver error class; a session that
/// answers for another chain is the distinct network-mismatch failure; a
/// session that answers for the configured chain yields the resolver.
pub fn finish_resolver(source: ResolverSource, expected: Network, probe: ProbeOutcome) -> (r:
    Result<AnyResolver, WalletError>)
    ensures
        probe matches ProbeOutcome::Reported(found) ==> (found == expected ==> r == (Ok::<
            AnyResolver,
            WalletError,
        >(AnyResolver { backend: source.backend, url: source.url, network: expected }))),
        probe matches ProbeOutcome::Reported(found) ==> (found != expected ==> r == (Err::<
            AnyResolver,
            WalletError,
        >(WalletError::NetworkMismatch { expected, found }))),
        probe matches ProbeOutcome::Failed(m) ==> r == (Err::<AnyResolver, WalletError>(
            WalletError::Resolver(m),
        )),
{
    match probe {
        ProbeOutcome::Reported(found) => {
            if found == expected {
                Ok(AnyResolver { backend: source.backend, url: source.url, network: expected })
            } else {
                Err(WalletError::NetworkMismatch { expected, found })
            }
        },
        ProbeOutcome::Failed(m) => Err(WalletError::Resolver(m)),
    }
}

/// A backend answering for the wrong chain is a failure of its own class:
/// no network mismatch ever equals an arity or construction failure,
/// whatever the chains and whatever the message. It signals "the backend
/// points at the wrong chain", never "misconfiguration of which backend to
/// use".
pub proof fn lemma_mismatch_distinct_from_arity(expected: Network, found: Network, m: String)
    ensures
        (WalletError::NetworkMismatch { expected, found }) != (WalletError::Resolver(m)),
{
}

} // verus!
