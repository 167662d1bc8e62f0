//! The role that starts each rekey round.
//!
//! A round runs in this order: a key is fetched from the key distribution device; a rekey
//! request with the key's identifier and a fresh nonce is sent; the acknowledgement is read
//! and checked; the output key is derived and handed to the consumer; the role sleeps for
//! the rekey interval. Fetching, sending, reading and sleeping are the caller's part: it
//! feeds what happened to [`DaisywayServerProtocol::on_event`] and carries out what that
//! returns.

use vstd::prelude::*;

use super::basics::{
    daisyway_key, derive_daisyway_key, random_key, DaisywayProtocolParameters, Nonce,
    ProtocolError, RekeyAck, RekeyReq, REKEY_ACK,
};
use crate::etsi014::Etsi014Key;
use crate::osk::{OskUpdate, SetOskReason};

verus! {

/// Where the role stands in its round.
#[derive(Debug, Clone)]
pub enum ServerState {
    /// No round is in flight. The next round starts once a key has been fetched.
    Idle,
    /// The request of the round is out and its acknowledgement is awaited.
    AwaitingAck { nonce: Nonce, key: Etsi014Key },
    /// The connection has failed and accepts nothing more.
    Closed,
}

/// What happened outside.
#[derive(Debug, Clone)]
pub enum ServerEvent {
    /// The key distribution device has delivered a key of its choice.
    KeyFetched(Etsi014Key),
    /// The peer has sent an acknowledgement.
    AckReceived(RekeyAck),
}

/// What the caller is to do next.
#[derive(Debug, Clone)]
pub enum ServerAction {
    /// Send the request to the peer, then read one octet of acknowledgement.
    SendRekeyReq(RekeyReq),
    /// Hand the update to the consumer, sleep for `sleep_secs` seconds, then fetch a key.
    SetOsk { update: OskUpdate, sleep_secs: u64 },
}

/// The role that starts each rekey round.
#[derive(Debug, Clone)]
pub struct DaisywayServerProtocol {
    pub protocol_params: DaisywayProtocolParameters,
    pub rekey_interval: u64,
    pub state: ServerState,
}

impl DaisywayServerProtocol {
    /// A role with no round in flight.
    pub fn new(protocol_params: DaisywayProtocolParameters, rekey_interval: u64) -> (protocol: Self)
        ensures
            protocol.protocol_params == protocol_params,
            protocol.rekey_interval == rekey_interval,
            protocol.state == ServerState::Idle,
    {
        Self { protocol_params, rekey_interval, state: ServerState::Idle }
    }

    /// Starts a round with the fetched key and the given nonce: the request carries the
    /// identifier of the key and the nonce, and both are kept until the acknowledgement.
    /// With a round in flight or after a failure, the connection is closed instead.
    pub fn start_round(&mut self, key: Etsi014Key, nonce: Nonce) -> (res: Result<
        ServerAction,
        ProtocolError,
    >)
        ensures
            final(self).protocol_params == old(self).protocol_params,
            final(self).rekey_interval == old(self).rekey_interval,
            old(self).state is Idle ==> {
                &&& res == Ok::<ServerAction, ProtocolError>(
                    ServerAction::SendRekeyReq(RekeyReq { qkd_key_id: key.id, nonce }),
                )
                &&& final(self).state == ServerState::AwaitingAck { nonce, key }
            },
            !(old(self).state is Idle) ==> {
                &&& res == Err::<ServerAction, ProtocolError>(ProtocolError::UnexpectedEvent)
                &&& final(self).state == ServerState::Closed
            },
    {
        match self.state {
            ServerState::Idle => {
                let rekey_req = RekeyReq { qkd_key_id: key.id, nonce };
                self.state = ServerState::AwaitingAck { nonce, key };
                Ok(ServerAction::SendRekeyReq(rekey_req))
            },
            _ => {
                self.state = ServerState::Closed;
                Err(ProtocolError::UnexpectedEvent)
            },
        }
    }

    /// Ends the round in flight with the acknowledgement that was read. The valid
    /// acknowledgement yields the output key of the round, to be installed as fresh, and the
    /// time to sleep. Every other octet closes the connection, and so does an acknowledgement
    /// that no round is waiting for; no output key is handed out then.
    pub fn finish_round(&mut self, ack: RekeyAck) -> (res: Result<ServerAction, ProtocolError>)
        ensures
            final(self).protocol_params == old(self).protocol_params,
            final(self).rekey_interval == old(self).rekey_interval,
            match old(self).state {
                ServerState::AwaitingAck { nonce, key } => if ack.dummy_data == REKEY_ACK {
                    &&& res matches Ok(ServerAction::SetOsk { update, sleep_secs })
                    &&& update.reason == SetOskReason::Fresh
                    &&& update.key@ == daisyway_key(
                        old(self).protocol_params.psk@,
                        old(self).protocol_params.local_peer_id@,
                        old(self).protocol_params.remote_peer_id@,
                        nonce@,
                        key.key@,
                        key.id@,
                    )
                    &&& sleep_secs == old(self).rekey_interval
                    &&& final(self).state == ServerState::Idle
                } else {
                    &&& res == Err::<ServerAction, ProtocolError>(
                        ProtocolError::InvalidRekeyAck { received: ack.dummy_data },
                    )
                    &&& final(self).state == ServerState::Closed
                },
                _ => {
                    &&& res == Err::<ServerAction, ProtocolError>(ProtocolError::UnexpectedEvent)
                    &&& final(self).state == ServerState::Closed
                },
            },
    {
        let mut state = ServerState::Closed;
        std::mem::swap(&mut state, &mut self.state);
        match state {
            ServerState::AwaitingAck { nonce, key } => {
                match ack.validate() {
                    Ok(()) => {
                        let osk = derive_daisyway_key(&self.protocol_params, nonce, key);
                        self.state = ServerState::Idle;
                        Ok(
                            ServerAction::SetOsk {
                                update: OskUpdate::set_fresh_osk(osk),
                                sleep_secs: self.rekey_interval,
                            },
                        )
                    },
                    Err(err) => Err(err),
                }
            },
            _ => Err(ProtocolError::UnexpectedEvent),
        }
    }

    /// Reacts to what happened outside. A fetched key starts a round with a nonce drawn at
    /// random; an acknowledgement ends the round in flight.
    pub fn on_event(&mut self, event: ServerEvent) -> (res: Result<ServerAction, ProtocolError>)
        ensures
            final(self).protocol_params == old(self).protocol_params,
            final(self).rekey_interval == old(self).rekey_interval,
            match event {
                ServerEvent::KeyFetched(key) => if old(self).state is Idle {
                    &&& res matches Ok(ServerAction::SendRekeyReq(req))
                    &&& req.qkd_key_id == key.id
                    &&& final(self).state == ServerState::AwaitingAck { nonce: req.nonce, key }
                } else {
                    &&& res == Err::<ServerAction, ProtocolError>(ProtocolError::UnexpectedEvent)
                    &&& final(self).state == ServerState::Closed
                },
                ServerEvent::AckReceived(ack) => match old(self).state {
                    ServerState::AwaitingAck { nonce, key } => if ack.dummy_data == REKEY_ACK {
                        &&& res matches Ok(ServerAction::SetOsk { update, sleep_secs })
                        &&& update.reason == SetOskReason::Fresh
                        &&& update.key@ == daisyway_key(
                            old(self).protocol_params.psk@,
                            old(self).protocol_params.local_peer_id@,
                            old(self).protocol_params.remote_peer_id@,
                            nonce@,
                            key.key@,
                            key.id@,
                        )
                        &&& sleep_secs == old(self).rekey_interval
                        &&& final(self).state == ServerState::Idle
                    } else {
                        &&& res == Err::<ServerAction, ProtocolError>(
                            ProtocolError::InvalidRekeyAck { received: ack.dummy_data },
                        )
                        &&& final(self).state == ServerState::Closed
                    },
                    _ => {
                        &&& res == Err::<ServerAction, ProtocolError>(
                            ProtocolError::UnexpectedEvent,
                        )
                        &&& final(self).state == ServerState::Closed
                    },
                },
            },
    {
        match event {
            ServerEvent::KeyFetched(key) => {
                let nonce = random_key();
                self.start_round(key, nonce)
            },
            ServerEvent::AckReceived(ack) => self.finish_round(ack),
        }
    }
}

} // verus!
