//! Search for X25519 keypairs whose base64-encoded public key contains a
//! chosen substring near its start.
//!
//! A search is a sequence of independent trials: draw a fresh keypair,
//! render the public key in base64, and test the rendering against a
//! [`search::SearchSpec`].  The crate also carries the probability model
//! that estimates how many trials one match costs, and a timed batch runner
//! that measures raw trial throughput.

pub mod encoding;
pub mod keys;
pub mod matcher;
pub mod model;
pub mod rate;
pub mod search;
