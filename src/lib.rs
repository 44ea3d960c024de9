//! Lifecycle of an OAuth2 access/refresh token pair: expiry with a safety
//! margin, the authorization URL, the outcome of a code exchange, and the
//! guard that keeps readers away from a token while it is being refreshed.
pub mod exchange;
pub mod expiry;
pub mod lemmas;
pub mod refresh;
pub mod token;
pub mod url;
