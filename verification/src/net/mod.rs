//! The two ends of the TCP control channel.

pub mod tcp_client;
pub mod tcp_participant;
pub mod tcp_server;
