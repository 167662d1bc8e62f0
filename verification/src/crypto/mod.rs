//! The cryptographic core: hash domains, key derivation and the two protocol roles.

pub mod basics;
pub mod client;
pub mod hash_domain;
pub mod server;
