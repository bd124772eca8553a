//! A typed client binding for a remote vector-database HTTP service.
//!
//! The library is the verified protocol layer: it decides, for each index
//! operation, exactly which HTTP request is made (method, expected status,
//! URL, path and body) and how every possible transport outcome is
//! classified into a success or one of the three error kinds. Sending the
//! request over the network is left to the surrounding application.

pub mod error;
pub mod models;
pub mod fetch;
pub mod index;
pub mod plan;
pub mod transport;

pub use error::PineconeError;
