//! The consumer that installs the output key as the pre-shared key of a WireGuard peer.
//!
//! Talking to the kernel is the caller's part. This module says which peer has to exist
//! before the first key, and what is changed with each key.

use vstd::prelude::*;
use vstd::string::StringExecFns;
use vstd::utf8::encode_utf8;

use super::SetOskReason;
use crate::crypto::basics::{Key, PublicKey};
use crate::util::{base64_to_key, key_of_base64, Base64Error};

verus! {

/// Why the consumer could not be set up.
#[derive(Debug, Clone, Copy, PartialEq, Eq, Structural)]
pub enum WireGuardError {
    /// The identity of the peer is not the base64 form of a key.
    InvalidPeerId(Base64Error),
    /// The interface has no peer with that identity.
    PeerNotFound,
}

/// One change to a WireGuard interface: the peer `public_key` of `interface` gets the
/// pre-shared key `preshared_key`. With `update_only`, a peer that does not exist is not
/// created.
#[derive(Debug)]
pub struct PeerUpdate {
    pub interface: String,
    pub public_key: PublicKey,
    pub update_only: bool,
    pub preshared_key: Key,
}

/// The consumer that installs output keys for the peer `peer_id` of `interface`, through
/// `socket`.
#[derive(Debug, Clone)]
pub struct WireGuardOskHandler<Socket> {
    pub socket: Socket,
    pub interface: String,
    pub peer_id: Key,
}

/// Whether one of `peers` is `peer_id`.
pub open spec fn has_peer(peers: Seq<PublicKey>, peer_id: Seq<u8>) -> bool {
    exists|i: int| 0 <= i < peers.len() && (#[trigger] peers[i])@ == peer_id
}

/// Whether the two keys are the same.
fn same_key(a: &PublicKey, b: &Key) -> (same: bool)
    ensures
        same == (a@ == b@),
{
    let mut i: usize = 0;
    while i < 32
        invariant
            i <= 32,
            forall|k: int| 0 <= k < i ==> a@[k] == b@[k],
        decreases 32 - i,
    {
        if a[i] != b[i] {
            return false;
        }
        i += 1;
    }
    assert(a@ =~= b@);
    true
}

impl<Socket> WireGuardOskHandler<Socket> {
    /// Sets the consumer up for the peer whose identity is `peer_id` in base64. `peers` are
    /// the peers that `interface` has; the peer has to be one of them.
    pub fn setup(peer_id: &str, interface: &str, socket: Socket, peers: &Vec<PublicKey>) -> (res:
        Result<Self, WireGuardError>)
        ensures
            match res {
                Ok(handler) => {
                    &&& key_of_base64(encode_utf8(peer_id@)) == Ok::<Seq<u8>, Base64Error>(
                        handler.peer_id@,
                    )
                    &&& has_peer(peers@, handler.peer_id@)
                    &&& handler.interface@ == interface@
                    &&& handler.socket == socket
                },
                Err(WireGuardError::InvalidPeerId(err)) => key_of_base64(encode_utf8(peer_id@))
                    == Err::<Seq<u8>, Base64Error>(err),
                Err(WireGuardError::PeerNotFound) => key_of_base64(encode_utf8(peer_id@)) matches Ok(
                    key,
                ) && !has_peer(peers@, key),
            },
    {
        let peer_id_u8 = match base64_to_key(peer_id.as_bytes()) {
            Ok(key) => key,
            Err(err) => {
                return Err(WireGuardError::InvalidPeerId(err));
            },
        };
        let mut found = false;
        let mut i: usize = 0;
        while i < peers.len() && !found
            invariant
                i <= peers.len(),
                found ==> has_peer(peers@, peer_id_u8@),
                !found ==> forall|k: int| 0 <= k < i ==> (#[trigger] peers@[k])@ != peer_id_u8@,
            decreases peers.len() - i + if found { 0int } else { 1int },
        {
            if same_key(&peers[i], &peer_id_u8) {
                found = true;
            } else {
                i += 1;
            }
        }
        if !found {
            return Err(WireGuardError::PeerNotFound);
        }
        Ok(Self { socket, interface: String::from_str(interface), peer_id: peer_id_u8 })
    }

    /// What installing `key` takes: the pre-shared key of the peer is set to `key`, and
    /// nothing is changed if the peer is gone. A stale key is installed like a fresh one.
    pub fn peer_update(&self, key: Key, reason: SetOskReason) -> (update: PeerUpdate)
        ensures
            update.interface@ == self.interface@,
            update.public_key == self.peer_id,
            update.update_only,
            update.preshared_key == key,
    {
        PeerUpdate {
            interface: self.interface.clone(),
            public_key: self.peer_id,
            update_only: true,
            preshared_key: key,
        }
    }
}

} // verus!
