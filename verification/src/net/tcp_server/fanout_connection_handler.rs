//! What is needed to run the task of one accepted connection.

use vstd::prelude::*;

use super::events::{ConnectionHandlerEvent, ExitEvent};
use super::fanout_osk_handler::FanoutOskHandler;
use super::ConnectionId;
use crate::crypto::basics::DaisywayProtocolParameters;
use crate::crypto::server::{DaisywayServerProtocol, ServerState};

verus! {

/// Starts the tasks of accepted connections. `E` is the connection to the key distribution
/// device and `Tx` the sending end of the manager's queue of events.
#[derive(Debug, Clone)]
pub struct FanoutConnectionHandler<E, Tx> {
    pub protocol_params: DaisywayProtocolParameters,
    pub etsi_client: E,
    pub manager_notification_tx: Tx,
    pub rekey_interval: u64,
}

impl<E, Tx> FanoutConnectionHandler<E, Tx> {
    /// What every task is started with.
    pub fn new(
        protocol_params: DaisywayProtocolParameters,
        etsi_client: E,
        manager_notification_tx: Tx,
        rekey_interval: u64,
    ) -> (handler: Self)
        ensures
            handler.protocol_params == protocol_params,
            handler.etsi_client == etsi_client,
            handler.manager_notification_tx == manager_notification_tx,
            handler.rekey_interval == rekey_interval,
    {
        Self { protocol_params, etsi_client, manager_notification_tx, rekey_interval }
    }

    /// What the manager is told when the task of connection `connection_id` has ended,
    /// with or without an error.
    pub fn exit_event(connection_id: ConnectionId) -> (event: ConnectionHandlerEvent)
        ensures
            event == ConnectionHandlerEvent::Exit(ExitEvent { connection_id }),
    {
        ConnectionHandlerEvent::Exit(ExitEvent { connection_id })
    }

    /// What the task of connection `connection_id` runs with: the role that starts rekey
    /// rounds, with no round in flight; the consumer that reports to the manager; and the
    /// connection to the key distribution device.
    pub fn into_parts(self, connection_id: ConnectionId) -> (parts: (
        DaisywayServerProtocol,
        FanoutOskHandler<Tx>,
        E,
    ))
        ensures
            parts.0.protocol_params == self.protocol_params,
            parts.0.rekey_interval == self.rekey_interval,
            parts.0.state == ServerState::Idle,
            parts.1.manager_notification_tx == self.manager_notification_tx,
            parts.1.connection_id == connection_id,
            parts.2 == self.etsi_client,
    {
        let Self { protocol_params, etsi_client, manager_notification_tx, rekey_interval } = self;

        let osk_handler = FanoutOskHandler::new(manager_notification_tx, connection_id);
        let protocol_handler = DaisywayServerProtocol::new(protocol_params, rekey_interval);
        (protocol_handler, osk_handler, etsi_client)
    }
}

} // verus!
