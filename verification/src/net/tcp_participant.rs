//! The choice between the two ends of the control channel.

use vstd::prelude::*;

use super::tcp_client::DaisywayTcpClient;
use super::tcp_server::DaisywayTcpServer;
use crate::crypto::basics::DaisywayProtocolParameters;

verus! {

/// Which end of the control channel the daemon is, and where the other end is found.
#[derive(Debug)]
pub enum DaisywayTcpParticipantConfig {
    /// Connect to the peer at `endpoint` and answer its rekey rounds.
    Client { endpoint: String },
    /// Listen on `listen` and start rekey rounds with whoever connects.
    Server { listen: String },
}

impl Clone for DaisywayTcpParticipantConfig {
    fn clone(&self) -> (copy: Self)
        ensures
            copy.same_as(*self),
    {
        match self {
            DaisywayTcpParticipantConfig::Client { endpoint } => {
                DaisywayTcpParticipantConfig::Client { endpoint: endpoint.clone() }
            },
            DaisywayTcpParticipantConfig::Server { listen } => DaisywayTcpParticipantConfig::Server {
                listen: listen.clone(),
            },
        }
    }
}

impl DaisywayTcpParticipantConfig {
    /// The two say the same: the same end, at the same address.
    pub open spec fn same_as(self, other: Self) -> bool {
        match (self, other) {
            (
                DaisywayTcpParticipantConfig::Client { endpoint: a },
                DaisywayTcpParticipantConfig::Client { endpoint: b },
            ) => a@ == b@,
            (
                DaisywayTcpParticipantConfig::Server { listen: a },
                DaisywayTcpParticipantConfig::Server { listen: b },
            ) => a@ == b@,
            _ => false,
        }
    }
}

/// One end of the control channel, ready to run. `O` is the consumer of output keys and `E`
/// the connection to the key distribution device.
#[derive(Debug, Clone)]
pub enum DaisywayTcpParticipant<O, Addr, E> {
    Client(DaisywayTcpClient<O, Addr, E>),
    Server(DaisywayTcpServer<O, Addr, E>),
}

impl<O, E> DaisywayTcpParticipant<O, String, E> {
    /// The end that `config` asks for. Only the listening end paces the rounds, so only it
    /// gets the rekey interval.
    pub fn from_config(
        protocol_params: DaisywayProtocolParameters,
        config: &DaisywayTcpParticipantConfig,
        etsi_client: E,
        osk_handler: O,
        rekey_interval: u64,
    ) -> (participant: Self)
        ensures
            match *config {
                DaisywayTcpParticipantConfig::Client { endpoint } => {
                    &&& participant matches DaisywayTcpParticipant::Client(client)
                    &&& client.protocol_params == protocol_params
                    &&& client.endpoint@ == endpoint@
                    &&& client.etsi_client == etsi_client
                    &&& client.osk_handler == osk_handler
                },
                DaisywayTcpParticipantConfig::Server { listen } => {
                    &&& participant matches DaisywayTcpParticipant::Server(server)
                    &&& server.protocol_params == protocol_params
                    &&& server.listen_addr@ == listen@
                    &&& server.etsi_client == etsi_client
                    &&& server.osk_handler == osk_handler
                    &&& server.rekey_interval == rekey_interval
                },
            },
    {
        match config {
            DaisywayTcpParticipantConfig::Client { endpoint } => {
                DaisywayTcpParticipant::Client(
                    DaisywayTcpClient::new(
                        protocol_params,
                        endpoint.clone(),
                        etsi_client,
                        osk_handler,
                    ),
                )
            },
            DaisywayTcpParticipantConfig::Server { listen } => {
                DaisywayTcpParticipant::Server(
                    DaisywayTcpServer::new(
                        protocol_params,
                        listen.clone(),
                        etsi_client,
                        osk_handler,
                        rekey_interval,
                    ),
                )
            },
        }
    }
}

} // verus!
