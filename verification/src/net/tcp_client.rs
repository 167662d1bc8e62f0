//! The connecting end: connect, answer rekey rounds, and on any failure try again.

use vstd::prelude::*;

use crate::crypto::basics::DaisywayProtocolParameters;
use crate::crypto::client::DaisywayClientProtocol;

verus! {

/// Seconds between the end of one connection and the next attempt to connect.
pub const RECONNECT_DELAY_SECS: u64 = 2;

/// How a connection to the peer ended.
#[derive(Debug, Clone, Copy, PartialEq, Eq, Structural)]
pub enum SessionEnd {
    /// The connection ended without an error.
    Finished,
    /// Connecting failed, or the connection broke, or the peer or the key distribution
    /// device did not do its part.
    Failed,
}

/// What the connecting end does after a connection has ended.
#[derive(Debug, Clone, Copy, PartialEq, Eq, Structural)]
pub struct Reconnect {
    /// Whether there is an error to report.
    pub report_error: bool,
    /// Seconds to wait before connecting again.
    pub delay_secs: u64,
}

/// The connecting end. `O` is the consumer of output keys and `E` the connection to the key
/// distribution device.
#[derive(Debug, Clone)]
pub struct DaisywayTcpClient<O, Addr, E> {
    pub protocol_params: DaisywayProtocolParameters,
    pub endpoint: Addr,
    pub etsi_client: E,
    pub osk_handler: O,
}

impl<O, Addr, E> DaisywayTcpClient<O, Addr, E> {
    /// The connecting end for the peer at `endpoint`.
    pub fn new(
        protocol_params: DaisywayProtocolParameters,
        endpoint: Addr,
        etsi_client: E,
        osk_handler: O,
    ) -> (client: Self)
        ensures
            client.protocol_params == protocol_params,
            client.endpoint == endpoint,
            client.etsi_client == etsi_client,
            client.osk_handler == osk_handler,
    {
        Self { protocol_params, endpoint, etsi_client, osk_handler }
    }

    /// The role to run on a connection that was just made: it waits for the first request.
    pub fn protocol(&self) -> (protocol: DaisywayClientProtocol)
        ensures
            protocol.protocol_params == self.protocol_params,
            protocol.state == crate::crypto::client::ClientState::AwaitingReq,
    {
        DaisywayClientProtocol::new(self.protocol_params.clone())
    }

    /// What to do when a connection has ended: however it ended, connect again after
    /// [`RECONNECT_DELAY_SECS`] seconds, without backing off. A failure is reported.
    pub fn on_session_end(&self, end: SessionEnd) -> (next: Reconnect)
        ensures
            next.report_error == (end == SessionEnd::Failed),
            next.delay_secs == RECONNECT_DELAY_SECS,
    {
        Reconnect { report_error: end == SessionEnd::Failed, delay_secs: RECONNECT_DELAY_SECS }
    }
}

} // verus!
