//! The role that answers rekey rounds.
//!
//! A round runs in this order: a rekey request is read; the key that it names is fetched
//! from the key distribution device; the acknowledgement is sent; the output key is derived
//! and handed to the consumer. Reading, fetching and sending are the caller's part: it feeds
//! what happened to [`DaisywayClientProtocol::on_event`] and carries out what that returns.

use vstd::prelude::*;

use super::basics::{
    daisyway_key, derive_daisyway_key, DaisywayProtocolParameters, Nonce, ProtocolError, RekeyAck,
    RekeyReq, REKEY_ACK,
};
use crate::etsi014::Etsi014Key;
use crate::osk::{OskUpdate, SetOskReason};
use crate::util::UuidBytes;

verus! {

/// Where the role stands in its round.
#[derive(Debug, Clone)]
pub enum ClientState {
    /// No round is in flight. The next round starts with a request of the peer.
    AwaitingReq,
    /// A request has been read and the key that it names is being fetched.
    AwaitingKey { nonce: Nonce },
    /// The connection has failed and accepts nothing more.
    Closed,
}

/// What happened outside.
#[derive(Debug, Clone)]
pub enum ClientEvent {
    /// The peer has sent a rekey request.
    ReqReceived(RekeyReq),
    /// The key distribution device has delivered the key that was asked for.
    KeyFetched(Etsi014Key),
}

/// What the caller is to do next.
#[derive(Debug, Clone)]
pub enum ClientAction {
    /// Fetch the key with this identifier from the key distribution device.
    FetchSpecificKey(UuidBytes),
    /// Send the acknowledgement to the peer, hand the update to the consumer, then read
    /// the next request.
    AckAndSetOsk { ack: RekeyAck, update: OskUpdate },
}

/// The role that answers rekey rounds.
#[derive(Debug, Clone)]
pub struct DaisywayClientProtocol {
    pub protocol_params: DaisywayProtocolParameters,
    pub state: ClientState,
}

impl DaisywayClientProtocol {
    /// A role with no round in flight.
    pub fn new(protocol_params: DaisywayProtocolParameters) -> (protocol: Self)
        ensures
            protocol.protocol_params == protocol_params,
            protocol.state == ClientState::AwaitingReq,
    {
        Self { protocol_params, state: ClientState::AwaitingReq }
    }

    /// Reacts to what happened outside. A request makes the role ask for the key that the
    /// request names and keep the nonce. The key that arrives then yields the acknowledgement
    /// and the output key of the round, to be installed as fresh. Whatever arrives out of
    /// turn closes the connection.
    pub fn on_event(&mut self, event: ClientEvent) -> (res: Result<ClientAction, ProtocolError>)
        ensures
            final(self).protocol_params == old(self).protocol_params,
            match (old(self).state, event) {
                (ClientState::AwaitingReq, ClientEvent::ReqReceived(req)) => {
                    &&& res == Ok::<ClientAction, ProtocolError>(
                        ClientAction::FetchSpecificKey(req.qkd_key_id),
                    )
                    &&& final(self).state == ClientState::AwaitingKey { nonce: req.nonce }
                },
                (ClientState::AwaitingKey { nonce }, ClientEvent::KeyFetched(key)) => {
                    &&& res matches Ok(ClientAction::AckAndSetOsk { ack, update })
                    &&& ack.dummy_data == REKEY_ACK
                    &&& update.reason == SetOskReason::Fresh
                    &&& update.key@ == daisyway_key(
                        old(self).protocol_params.psk@,
                        old(self).protocol_params.local_peer_id@,
                        old(self).protocol_params.remote_peer_id@,
                        nonce@,
                        key.key@,
                        key.id@,
                    )
                    &&& final(self).state == ClientState::AwaitingReq
                },
                _ => {
                    &&& res == Err::<ClientAction, ProtocolError>(ProtocolError::UnexpectedEvent)
                    &&& final(self).state == ClientState::Closed
                },
            },
    {
        let mut state = ClientState::Closed;
        std::mem::swap(&mut state, &mut self.state);
        match (state, event) {
            (ClientState::AwaitingReq, ClientEvent::ReqReceived(rekey_req)) => {
                self.state = ClientState::AwaitingKey { nonce: rekey_req.nonce };
                Ok(ClientAction::FetchSpecificKey(rekey_req.qkd_key_id))
            },
            (ClientState::AwaitingKey { nonce }, ClientEvent::KeyFetched(key)) => {
                let osk = derive_daisyway_key(&self.protocol_params, nonce, key);
                self.state = ClientState::AwaitingReq;
                Ok(
                    ClientAction::AckAndSetOsk {
                        ack: RekeyAck::new(),
                        update: OskUpdate::set_fresh_osk(osk),
                    },
                )
            },
            _ => Err(ProtocolError::UnexpectedEvent),
        }
    }
}

} // verus!
