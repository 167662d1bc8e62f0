//! The listening end: many connections may be open, one of them is honoured.

use vstd::prelude::*;

use crate::crypto::basics::DaisywayProtocolParameters;

pub mod connection_manager;
pub mod events;
pub mod fanout_connection_handler;
pub mod fanout_osk_handler;

verus! {

/// How many connections may wait for their first output key at one time.
pub const MAX_BUDDING_CONNECTIONS: usize = 2000;

/// Numbers the accepted connections in the order of their arrival.
pub type ConnectionId = usize;

/// The listening end. `O` is the consumer of output keys and `E` the connection to the key
/// distribution device.
#[derive(Debug, Clone)]
pub struct DaisywayTcpServer<O, Addr, E> {
    pub protocol_params: DaisywayProtocolParameters,
    pub listen_addr: Addr,
    pub etsi_client: E,
    pub osk_handler: O,
    pub rekey_interval: u64,
}

impl<O, Addr, E> DaisywayTcpServer<O, Addr, E> {
    /// The listening end for the address `listen_addr`.
    pub fn new(
        protocol_params: DaisywayProtocolParameters,
        listen_addr: Addr,
        etsi_client: E,
        osk_handler: O,
        rekey_interval: u64,
    ) -> (server: Self)
        ensures
            server.protocol_params == protocol_params,
            server.listen_addr == listen_addr,
            server.etsi_client == etsi_client,
            server.osk_handler == osk_handler,
            server.rekey_interval == rekey_interval,
    {
        Self { protocol_params, listen_addr, etsi_client, osk_handler, rekey_interval }
    }
}

} // verus!
