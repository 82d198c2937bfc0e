//! The choice of the adapter that serves an exchange.
//!
//! Making a client is the adapter's work and happens outside this crate.
//! What is decided here is which adapter is asked, in which mode, and that
//! it gets the caller's credentials as they came. The factory checks
//! nothing itself: it fails when the adapter does, and only then.

use vstd::prelude::*;
use crate::credentials::ExchangeCredentials;
use crate::identity::Exchange;

verus! {

/// The adapter implementations. Binance and Ftx each serve two exchanges:
/// the international one and, in US mode, the one for the United States.
#[derive(Debug, Clone, Copy, PartialEq, Eq, Structural)]
pub enum Adapter {
    Binance,
    Coinbase,
    Ftx,
    Kraken,
}

/// What the factory asks of the adapter layer: a client of `adapter`, in US
/// mode or not, for the account of `credentials`.
#[derive(Debug)]
pub struct AdapterRequest {
    pub adapter: Adapter,
    pub us: bool,
    pub credentials: ExchangeCredentials,
}

impl Exchange {
    /// The adapter that serves this exchange.
    pub open spec fn adapter(self) -> Adapter {
        match self {
            Exchange::Binance | Exchange::BinanceUs => Adapter::Binance,
            Exchange::Coinbase => Adapter::Coinbase,
            Exchange::Ftx | Exchange::FtxUs => Adapter::Ftx,
            Exchange::Kraken => Adapter::Kraken,
        }
    }

    /// Whether this exchange is the US market of its adapter.
    pub open spec fn is_us(self) -> bool {
        self == Exchange::BinanceUs || self == Exchange::FtxUs
    }
}

impl AdapterRequest {
    /// The request that makes a client of `exchange`: its adapter, its
    /// mode, and the credentials unchanged.
    pub open spec fn for_exchange(
        exchange: Exchange,
        credentials: ExchangeCredentials,
    ) -> AdapterRequest {
        AdapterRequest { adapter: exchange.adapter(), us: exchange.is_us(), credentials }
    }

    /// Picks the adapter and the mode for `exchange` and puts the
    /// credentials beside them.
    pub fn new(exchange: Exchange, credentials: ExchangeCredentials) -> (request: AdapterRequest)
        ensures
            request == AdapterRequest::for_exchange(exchange, credentials),
    {
        let (adapter, us) = match exchange {
            Exchange::Binance => (Adapter::Binance, false),
            Exchange::BinanceUs => (Adapter::Binance, true),
            Exchange::Coinbase => (Adapter::Coinbase, false),
            Exchange::Ftx => (Adapter::Ftx, false),
            Exchange::FtxUs => (Adapter::Ftx, true),
            Exchange::Kraken => (Adapter::Kraken, false),
        };
        AdapterRequest { adapter, us, credentials }
    }
}

/// Adapter and mode together name the exchange: no two exchanges are served
/// by the same adapter in the same mode.
pub proof fn lemma_adapter_and_mode_name_the_exchange(a: Exchange, b: Exchange)
    requires
        a.adapter() == b.adapter(),
        a.is_us() == b.is_us(),
    ensures
        a == b,
{
}

/// Makes a client of `exchange` for the account of `exchange_credentials`.
///
/// `construct` stands for the adapter layer: it makes the client that a
/// request names, or reports why it cannot. It is called once, with the
/// request for `exchange`, and what it returns is returned: its client, or
/// its construction error.
pub fn exchange_client_new<C, E, F>(
    exchange: Exchange,
    exchange_credentials: ExchangeCredentials,
    construct: F,
) -> (client: Result<C, E>) where F: FnOnce(AdapterRequest) -> Result<C, E>
    requires
        construct.requires((AdapterRequest::for_exchange(exchange, exchange_credentials),)),
    ensures
        construct.ensures(
            (AdapterRequest::for_exchange(exchange, exchange_credentials),),
            client,
        ),
{
    construct(AdapterRequest::new(exchange, exchange_credentials))
}

} // verus!
