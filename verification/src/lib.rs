//! A uniform view of several cryptocurrency exchanges: which exchange is
//! meant, the credentials of an account on it, the values that a client
//! exchanges with its caller, and the choice of the adapter behind a client.

mod text;

pub mod credentials;
pub mod factory;
pub mod identity;
pub mod values;

pub use credentials::ExchangeCredentials;
pub use factory::{exchange_client_new, Adapter, AdapterRequest};
pub use identity::{Exchange, ParseExchangeError};
pub use values::{LendingHistory, MarketInfoFormat, OrderId, OrderSide, USD_COINS};
