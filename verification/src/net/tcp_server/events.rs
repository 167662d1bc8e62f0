//! What the connection manager reacts to.

use vstd::prelude::*;
use vstd::std_specs::convert::FromSpecImpl;

use super::ConnectionId;
use crate::crypto::basics::Key;
use crate::osk::SetOskReason;

verus! {

/// A peer has connected. `stream` carries the connection, `addr` says where it came from.
#[derive(Debug)]
pub struct AcceptEvent<Stream, Addr> {
    pub stream: Stream,
    pub addr: Addr,
}

/// The task of a connection has ended.
#[derive(Debug, Clone, Copy)]
pub struct ExitEvent {
    pub connection_id: ConnectionId,
}

/// A connection has completed a rekey round and offers its output key.
#[derive(Debug, Clone, Copy)]
pub struct OskEvent {
    pub connection_id: ConnectionId,
    pub key: Key,
    pub reason: SetOskReason,
}

/// What the task of a connection tells the manager.
#[derive(Debug, Clone, Copy)]
pub enum ConnectionHandlerEvent {
    Exit(ExitEvent),
    Osk(OskEvent),
}

/// Everything that the manager reacts to, in the order in which it arrives.
#[derive(Debug)]
pub enum StreamEvent<Stream, Addr> {
    Accept(AcceptEvent<Stream, Addr>),
    Exit(ExitEvent),
    Osk(OskEvent),
}

impl<Stream, Addr> From<ConnectionHandlerEvent> for StreamEvent<Stream, Addr> {
    fn from(value: ConnectionHandlerEvent) -> (event: Self) {
        match value {
            ConnectionHandlerEvent::Exit(exit) => StreamEvent::Exit(exit),
            ConnectionHandlerEvent::Osk(osk) => StreamEvent::Osk(osk),
        }
    }
}

impl<Stream, Addr> FromSpecImpl<ConnectionHandlerEvent> for StreamEvent<Stream, Addr> {
    open spec fn obeys_from_spec() -> bool {
        true
    }

    open spec fn from_spec(value: ConnectionHandlerEvent) -> Self {
        match value {
            ConnectionHandlerEvent::Exit(exit) => StreamEvent::Exit(exit),
            ConnectionHandlerEvent::Osk(osk) => StreamEvent::Osk(osk),
        }
    }
}

} // verus!
