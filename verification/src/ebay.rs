//! eBay API integration: the token cache that every eBay call draws on.

pub mod auth;
pub mod calls;
pub mod exchange;
pub mod guarantees;

pub use auth::{CachedToken, EbayAuth, EbayToken, TokenAction};
pub use exchange::{HttpStatus, TokenReply, TokenRequest};
