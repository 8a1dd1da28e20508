//! A small token service library: it issues signed, time-bounded bearer
//! tokens, validates tokens presented on later calls, and exposes a stubbed
//! revocation hook. The front module adapts token-carrying calls onto the
//! engine; the cache module holds the key-value store the server opens at
//! startup.

pub mod cache;
pub mod front;
pub mod token;
