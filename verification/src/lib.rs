//! Daisyway derives a shared key from quantum-distributed key material, a pre-shared secret
//! and the identities of two peers, and decides which connection's keys reach the consumer.

pub mod cli;
pub mod crypto;
pub mod etsi014;
pub mod net;
pub mod osk;
pub mod setup;
pub mod simulator;
pub mod util;

pub use setup::{Daisyway, DaisywayConfig};
