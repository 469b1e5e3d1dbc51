//! A bounded, elastic pool of reusable HTTP client handles for a Chroma
//! server, with the authentication headers, request shaping and response
//! classification that go with it.
//!
//! The library decides; the embedding program performs the network round
//! trips and the waiting between them.

pub mod auth;
pub mod client;
pub mod fleet;
pub mod pool;
pub mod request;
pub mod response;
pub mod text;
