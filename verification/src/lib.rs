//! Client-side core of a patent-data web service: percent-encoding of query
//! input, canonical rendering of patent identifiers, an expiry-aware bearer
//! token cache, request construction for the service's endpoints, and
//! range-based pagination of search results.

pub mod encode;
pub mod endpoints;
pub mod error;
pub mod ident;
pub mod json;
pub mod request;
pub mod text;
pub mod token;
pub mod usage;
