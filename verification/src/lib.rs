//! Client library for a sentence-translation search service.
//!
//! A caller builds a [`SearchOptions`] value, the library encodes it as a URL
//! query string, and the response body (JSON) is decoded into the typed
//! [`SearchResult`] model. Network transport itself is left to the embedding
//! application; the encoding and decoding logic here is verified.

pub mod client;
pub mod decode;
pub mod error;
pub mod json;
pub mod model;
pub mod options;
pub mod roundtrip;
pub mod urlencode;

pub use client::Client;
pub use error::Error;
pub use model::{SearchResult, Sentence, Translation};
pub use options::SearchOptions;
