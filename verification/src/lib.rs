//! A caching layer for a rank-lookup proxy in front of the Riot games API.
//!
//! The crate verifies the request/response cache and the decision logic of the
//! proxy: a keyed, TTL-aware cache (`cache`), the typed client state that wraps
//! it (`client`), the routing-region validation (`region`), the closed error
//! taxonomy (`error`), and the rank-request handler (`service`). All network
//! I/O is supplied by the caller through fetch callbacks, so every decision the
//! proxy makes is a verified function of plain values.

pub mod cache;
pub mod client;
pub mod dtos;
pub mod error;
pub mod region;
pub mod service;
