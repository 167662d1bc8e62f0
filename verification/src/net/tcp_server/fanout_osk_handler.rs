//! The consumer that a connection's task is given: it reports to the manager.

use vstd::prelude::*;

use super::events::{ConnectionHandlerEvent, OskEvent};
use super::ConnectionId;
use crate::crypto::basics::Key;
use crate::osk::SetOskReason;

verus! {

/// Reports the output keys of connection `connection_id` to the manager, through
/// `manager_notification_tx`.
#[derive(Debug, Clone)]
pub struct FanoutOskHandler<Tx> {
    pub manager_notification_tx: Tx,
    pub connection_id: ConnectionId,
}

impl<Tx> FanoutOskHandler<Tx> {
    /// The consumer for the task of connection `connection_id`.
    pub fn new(manager_notification_tx: Tx, connection_id: ConnectionId) -> (handler: Self)
        ensures
            handler.manager_notification_tx == manager_notification_tx,
            handler.connection_id == connection_id,
    {
        Self { manager_notification_tx, connection_id }
    }

    /// What the manager is told when the task has an output key: the key, the reason, and
    /// the number of the connection.
    pub fn osk_event(&self, key: Key, reason: SetOskReason) -> (event: ConnectionHandlerEvent)
        ensures
            event == ConnectionHandlerEvent::Osk(
                OskEvent { connection_id: self.connection_id, key, reason },
            ),
    {
        ConnectionHandlerEvent::Osk(OskEvent { key, reason, connection_id: self.connection_id })
    }
}

} // verus!
