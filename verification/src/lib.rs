//! Credential management for marketplace API clients: per-service
//! configuration and an OAuth2 client-credentials token cache.
//!
//! The cache never performs I/O. It decides, from its state and the clock
//! reading it is given, whether the cached token may be used or a token
//! exchange is due, and it takes in the outcome of that exchange.

pub mod config;
pub mod ebay;
pub mod error;

pub use config::{Config, EbayConfig, EtsyConfig, StripeConfig};
pub use ebay::EbayAuth;
pub use error::{HermesError, HermesResult};
