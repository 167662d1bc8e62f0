//! Keys, peer identities, the key derivation and the messages of the rekey protocol.

use rand::Rng;
use vstd::prelude::*;

use super::hash_domain::{mix_output, HashDomain};
use crate::etsi014::Etsi014Key;
use crate::util::{ConnectionIdBytes, UuidBytes};

verus! {

/// Length in octets of every key.
pub const KEY_LENGTH: usize = 32;

/// Room for the base64 form of a key, with slack for line endings.
pub const KEY_LENGTH_B64: usize = KEY_LENGTH * 4 / 3 + 4;

/// Seconds between two rekey rounds unless configured otherwise.
pub const REKEY_INTERVAL: u64 = 120;

/// A 32-octet symmetric key.
pub type Key = [u8; 32];

/// A 32-octet value drawn afresh for every rekey round.
pub type Nonce = Key;

/// 32 octets of hash output.
pub type HashValue = Key;

/// A WireGuard public key.
pub type PublicKey = [u8; 32];

/// The identity of a peer: its WireGuard public key.
pub type PeerId = PublicKey;

/// The ASCII text that separates this protocol from every other use of SHAKE-256.
pub const PROTOCOL_DOMAIN: [u8; 68] = [
    68, 97, 105, 115, 121, 119, 97, 121, 32, 118, 49, 32, 98, 121, 32, 80, 97, 117, 108, 32, 83,
    112, 111, 111, 114, 101, 110, 32, 38, 32, 75, 97, 114, 111, 108, 105, 110, 32, 86, 97, 114,
    110, 101, 114, 44, 32, 70, 101, 98, 45, 50, 48, 50, 53, 32, 119, 105, 116, 104, 32, 83, 104,
    97, 107, 101, 50, 53, 54,
];

/// The ASCII text `derive key`.
pub const DERIVE_KEY_LABEL: [u8; 10] = [100, 101, 114, 105, 118, 101, 32, 107, 101, 121];

/// Thirty-two zero octets.
pub open spec fn zero_key() -> Seq<u8> {
    Seq::new(32, |i: int| 0u8)
}

/// The key of the protocol's root domain.
pub open spec fn root_domain_key() -> Seq<u8> {
    mix_output(zero_key(), PROTOCOL_DOMAIN@, 32)
}

/// The key of the domain under which output keys are derived.
pub open spec fn derive_key_domain_key() -> Seq<u8> {
    mix_output(root_domain_key(), DERIVE_KEY_LABEL@, 32)
}

/// The hash domains of the protocol.
pub struct ProtocolDomains;

impl ProtocolDomains {
    /// The root domain: the protocol text mixed into the zero domain.
    pub fn root() -> (domain: HashDomain)
        ensures
            domain.key@ == root_domain_key(),
    {
        let text = PROTOCOL_DOMAIN;
        HashDomain::zero().mix(text.as_slice())
    }

    /// The domain for deriving output keys: `derive key` mixed into the root domain.
    pub fn derive_key() -> (domain: HashDomain)
        ensures
            domain.key@ == derive_key_domain_key(),
    {
        let label = DERIVE_KEY_LABEL;
        Self::root().mix(label.as_slice())
    }
}

/// What both peers are configured with before the first round.
#[derive(Debug, PartialEq, Eq)]
pub struct DaisywayProtocolParameters {
    pub psk: Key,
    pub local_peer_id: PeerId,
    pub remote_peer_id: PeerId,
}

impl Clone for DaisywayProtocolParameters {
    fn clone(&self) -> (copy: Self)
        ensures
            copy == *self,
    {
        Self {
            psk: self.psk,
            local_peer_id: self.local_peer_id,
            remote_peer_id: self.remote_peer_id,
        }
    }
}

/// Lexicographic order on octet strings: `a` comes no later than `b`.
pub open spec fn lex_le(a: Seq<u8>, b: Seq<u8>) -> bool
    decreases a.len(),
{
    if a.len() == 0 {
        true
    } else if b.len() == 0 {
        false
    } else if a[0] != b[0] {
        a[0] < b[0]
    } else {
        lex_le(a.drop_first(), b.drop_first())
    }
}

/// The two peer identities in lexicographic order, one after the other.
pub open spec fn connection_id_bytes(a: Seq<u8>, b: Seq<u8>) -> Seq<u8> {
    if lex_le(a, b) {
        a + b
    } else {
        b + a
    }
}

/// Of two strings of one length, one comes no later than the other.
pub proof fn lemma_lex_le_total(a: Seq<u8>, b: Seq<u8>)
    requires
        a.len() == b.len(),
    ensures
        lex_le(a, b) || lex_le(b, a),
    decreases a.len(),
{
    if a.len() > 0 && a[0] == b[0] {
        lemma_lex_le_total(a.drop_first(), b.drop_first());
    }
}

/// Two strings of one length that each come no later than the other are equal.
pub proof fn lemma_lex_le_antisymmetric(a: Seq<u8>, b: Seq<u8>)
    requires
        a.len() == b.len(),
        lex_le(a, b),
        lex_le(b, a),
    ensures
        a == b,
    decreases a.len(),
{
    if a.len() > 0 {
        lemma_lex_le_antisymmetric(a.drop_first(), b.drop_first());
        assert(b =~= seq![b[0]] + b.drop_first());
    }
}

/// Strings that agree on their first `n` octets compare as their remainders do.
proof fn lemma_lex_le_skip(a: Seq<u8>, b: Seq<u8>, n: int)
    requires
        0 <= n <= a.len(),
        n <= b.len(),
        a.subrange(0, n) == b.subrange(0, n),
    ensures
        lex_le(a, b) == lex_le(a.skip(n), b.skip(n)),
    decreases n,
{
    if n == 0 {
        assert(a.skip(0) =~= a);
        assert(b.skip(0) =~= b);
    } else {
        assert(b[0] == b.subrange(0, n)[0]);
        assert(a.drop_first().subrange(0, n - 1) =~= a.subrange(0, n).drop_first());
        assert(b.drop_first().subrange(0, n - 1) =~= b.subrange(0, n).drop_first());
        lemma_lex_le_skip(a.drop_first(), b.drop_first(), n - 1);
        assert(a.drop_first().skip(n - 1) =~= a.skip(n));
        assert(b.drop_first().skip(n - 1) =~= b.skip(n));
    }
}

/// The connection identifier does not depend on which peer is called local.
pub proof fn lemma_connection_id_symmetric(a: Seq<u8>, b: Seq<u8>)
    requires
        a.len() == b.len(),
    ensures
        connection_id_bytes(a, b) == connection_id_bytes(b, a),
{
    lemma_lex_le_total(a, b);
    if lex_le(a, b) && lex_le(b, a) {
        lemma_lex_le_antisymmetric(a, b);
    }
}

/// Whether `a` comes no later than `b` in lexicographic order.
fn peer_id_le(a: &PeerId, b: &PeerId) -> (le: bool)
    ensures
        le == lex_le(a@, b@),
{
    let mut i: usize = 0;
    while i < 32 && a[i] == b[i]
        invariant
            i <= 32,
            a@.subrange(0, i as int) == b@.subrange(0, i as int),
        decreases 32 - i,
    {
        i += 1;
    }
    proof {
        lemma_lex_le_skip(a@, b@, i as int);
    }
    i == 32 || a[i] < b[i]
}

/// The octets of `first` followed by those of `second`.
fn concat_peer_ids(first: &PeerId, second: &PeerId) -> (bytes: ConnectionIdBytes)
    ensures
        bytes@ == first@ + second@,
{
    let mut bytes: ConnectionIdBytes = [0u8; 64];
    let mut i: usize = 0;
    while i < 32
        invariant
            i <= 32,
            forall|k: int| 0 <= k < i ==> bytes@[k] == first@[k],
            forall|k: int| 0 <= k < i ==> bytes@[32 + k] == second@[k],
        decreases 32 - i,
    {
        bytes[i] = first[i];
        bytes[32 + i] = second[i];
        i += 1;
    }
    bytes
}

/// Names a connection between two peers, whichever of them computes it.
#[derive(Debug, Clone, Copy)]
pub struct WireGuardConnectionId {
    first_peer: PeerId,
    second_peer: PeerId,
}

impl View for WireGuardConnectionId {
    type V = Seq<u8>;

    /// The 64 octets of the identifier.
    closed spec fn view(&self) -> Seq<u8> {
        self.first_peer@ + self.second_peer@
    }
}

impl WireGuardConnectionId {
    /// The identifier of the connection between the two peers: their identities in
    /// lexicographic order.
    pub fn new(self_public_key: PeerId, peer_public_key: PeerId) -> (id: Self)
        ensures
            id@ == connection_id_bytes(self_public_key@, peer_public_key@),
    {
        if peer_id_le(&self_public_key, &peer_public_key) {
            Self { first_peer: self_public_key, second_peer: peer_public_key }
        } else {
            Self { first_peer: peer_public_key, second_peer: self_public_key }
        }
    }

    /// The 64 octets of the identifier.
    pub fn to_bytes(&self) -> (bytes: ConnectionIdBytes)
        ensures
            bytes@ == self@,
    {
        concat_peer_ids(&self.first_peer, &self.second_peer)
    }
}

/// Copies `src` into `dst` from position `at` on and leaves the rest of `dst` as it was.
fn write_at<const N: usize, const M: usize>(dst: &mut [u8; N], at: usize, src: &[u8; M])
    requires
        at + M <= N,
    ensures
        final(dst)@ == old(dst)@.subrange(0, at as int) + src@ + old(dst)@.subrange(
            at + M,
            N as int,
        ),
{
    let mut i: usize = 0;
    while i < M
        invariant
            i <= M,
            at + M <= N,
            forall|k: int| 0 <= k < at ==> dst@[k] == old(dst)@[k],
            forall|k: int| 0 <= k < i ==> dst@[at + k] == src@[k],
            forall|k: int| at + i <= k < N ==> dst@[k] == old(dst)@[k],
        decreases M - i,
    {
        dst[at + i] = src[i];
        i += 1;
    }
}

/// The octets that are hashed to derive an output key, in wire order.
pub open spec fn kdf_input_bytes(
    psk: Seq<u8>,
    nonce: Seq<u8>,
    qkd_key: Seq<u8>,
    qkd_key_id: Seq<u8>,
    wireguard_connection_id: Seq<u8>,
) -> Seq<u8> {
    psk + nonce + qkd_key + qkd_key_id + wireguard_connection_id
}

/// Everything that enters the derivation of one output key.
#[derive(Debug)]
pub struct KdfInput {
    psk: Key,
    nonce: Nonce,
    qkd_key: Key,
    qkd_key_id: UuidBytes,
    wireguard_connection_id: WireGuardConnectionId,
}

impl View for KdfInput {
    type V = Seq<u8>;

    /// The 176 octets of the input: the fields in declaration order, without padding.
    closed spec fn view(&self) -> Seq<u8> {
        kdf_input_bytes(
            self.psk@,
            self.nonce@,
            self.qkd_key@,
            self.qkd_key_id@,
            self.wireguard_connection_id@,
        )
    }
}

impl KdfInput {
    /// Length in octets of the serialized input.
    pub const LEN: usize = 176;

    /// Gathers the pre-shared key, the nonce of the round, the distributed key with its
    /// identifier, and the connection identifier.
    pub fn new(
        psk: Key,
        nonce: Key,
        qkd_key: Etsi014Key,
        wireguard_connection_id: WireGuardConnectionId,
    ) -> (input: Self)
        ensures
            input@ == kdf_input_bytes(
                psk@,
                nonce@,
                qkd_key.key@,
                qkd_key.id@,
                wireguard_connection_id@,
            ),
    {
        let Etsi014Key { key: qkd_key, id: qkd_key_id } = qkd_key;
        Self { psk, nonce, qkd_key, qkd_key_id, wireguard_connection_id }
    }

    /// The input as it is hashed: 176 octets.
    pub fn to_bytes(&self) -> (bytes: [u8; 176])
        ensures
            bytes@ == self@,
    {
        let mut bytes = [0u8; 176];
        write_at(&mut bytes, 0, &self.psk);
        write_at(&mut bytes, 32, &self.nonce);
        write_at(&mut bytes, 64, &self.qkd_key);
        write_at(&mut bytes, 96, &self.qkd_key_id);
        let connection_id = self.wireguard_connection_id.to_bytes();
        write_at(&mut bytes, 112, &connection_id);
        bytes
    }
}

/// The output key that both peers derive in one round.
pub open spec fn daisyway_key(
    psk: Seq<u8>,
    local_peer_id: Seq<u8>,
    remote_peer_id: Seq<u8>,
    nonce: Seq<u8>,
    qkd_key: Seq<u8>,
    qkd_key_id: Seq<u8>,
) -> Seq<u8> {
    mix_output(
        derive_key_domain_key(),
        kdf_input_bytes(
            psk,
            nonce,
            qkd_key,
            qkd_key_id,
            connection_id_bytes(local_peer_id, remote_peer_id),
        ),
        32,
    )
}

/// Derives the output key of one round from the pre-shared key, the identities of the two
/// peers, the nonce and the distributed key.
pub fn derive_daisyway_key(params: &DaisywayProtocolParameters, nonce: Nonce, key: Etsi014Key) -> (osk:
    Key)
    ensures
        osk@ == daisyway_key(
            params.psk@,
            params.local_peer_id@,
            params.remote_peer_id@,
            nonce@,
            key.key@,
            key.id@,
        ),
{
    let conn_id = WireGuardConnectionId::new(params.local_peer_id, params.remote_peer_id);
    let kdf_input = KdfInput::new(params.psk, nonce, key, conn_id);
    let bytes = kdf_input.to_bytes();
    ProtocolDomains::derive_key().mix(bytes.as_slice()).into_key()
}

/// Both peers derive the same output key: exchanging the local and the remote identity
/// changes nothing.
pub proof fn lemma_daisyway_key_symmetric(
    psk: Seq<u8>,
    local_peer_id: Seq<u8>,
    remote_peer_id: Seq<u8>,
    nonce: Seq<u8>,
    qkd_key: Seq<u8>,
    qkd_key_id: Seq<u8>,
)
    requires
        local_peer_id.len() == remote_peer_id.len(),
    ensures
        daisyway_key(psk, local_peer_id, remote_peer_id, nonce, qkd_key, qkd_key_id)
            == daisyway_key(psk, remote_peer_id, local_peer_id, nonce, qkd_key, qkd_key_id),
{
    lemma_connection_id_symmetric(local_peer_id, remote_peer_id);
}

/// Thirty-two octets from the thread's cryptographically secure random generator.
///
/// Trusted: the body calls `rand::rng().random()`. Nothing is claimed of the octets: every
/// call may return any key.
#[verifier::external_body]
pub(crate) fn random_key() -> (key: Key) {
    rand::rng().random()
}

/// The octets of a rekey request on the wire: the key identifier, then the nonce.
pub open spec fn rekey_req_bytes(qkd_key_id: Seq<u8>, nonce: Seq<u8>) -> Seq<u8> {
    qkd_key_id + nonce
}

/// Asks the peer to fetch the distributed key `qkd_key_id` and to mix in `nonce`.
#[derive(Debug, Clone, Copy)]
pub struct RekeyReq {
    pub qkd_key_id: UuidBytes,
    pub nonce: Nonce,
}

impl View for RekeyReq {
    type V = Seq<u8>;

    /// The 48 octets of the request on the wire.
    open spec fn view(&self) -> Seq<u8> {
        rekey_req_bytes(self.qkd_key_id@, self.nonce@)
    }
}

impl RekeyReq {
    /// Length in octets of a request on the wire.
    pub const LEN: usize = 48;

    /// A request for the key `qkd_key_id` with a nonce drawn at random.
    pub fn new(qkd_key_id: UuidBytes) -> (req: Self)
        ensures
            req.qkd_key_id == qkd_key_id,
    {
        let nonce: Nonce = random_key();
        Self { qkd_key_id, nonce }
    }

    /// The request as it is sent: 48 octets.
    pub fn to_bytes(&self) -> (bytes: [u8; 48])
        ensures
            bytes@ == self@,
    {
        let mut bytes = [0u8; 48];
        write_at(&mut bytes, 0, &self.qkd_key_id);
        write_at(&mut bytes, 16, &self.nonce);
        bytes
    }

    /// The request that was sent as `bytes`.
    pub fn from_bytes(bytes: &[u8; 48]) -> (req: Self)
        ensures
            req@ == bytes@,
            req.qkd_key_id@ == bytes@.subrange(0, 16),
            req.nonce@ == bytes@.subrange(16, 48),
    {
        let mut qkd_key_id: UuidBytes = [0u8; 16];
        let mut nonce: Nonce = [0u8; 32];
        let mut i: usize = 0;
        while i < 16
            invariant
                i <= 16,
                forall|k: int| 0 <= k < i ==> qkd_key_id@[k] == bytes@[k],
            decreases 16 - i,
        {
            qkd_key_id[i] = bytes[i];
            i += 1;
        }
        let mut j: usize = 0;
        while j < 32
            invariant
                j <= 32,
                forall|k: int| 0 <= k < j ==> nonce@[k] == bytes@[16 + k],
            decreases 32 - j,
        {
            nonce[j] = bytes[16 + j];
            j += 1;
        }
        Self { qkd_key_id, nonce }
    }
}

/// On the wire a rekey request is 48 octets, an acknowledgement is one octet, a connection
/// identifier is 64 octets, and the input of the key derivation is 176 octets.
pub proof fn lemma_wire_sizes(
    req: RekeyReq,
    ack: RekeyAck,
    connection_id: WireGuardConnectionId,
    input: KdfInput,
)
    ensures
        req@.len() == RekeyReq::LEN == 48,
        seq![ack.dummy_data].len() == RekeyAck::LEN == 1,
        connection_id@.len() == 64,
        input@.len() == KdfInput::LEN == 176,
{
}

/// A rekey request that is written and read again is the same request.
pub proof fn lemma_rekey_req_round_trip(req: RekeyReq, bytes: Seq<u8>)
    requires
        bytes == req@,
    ensures
        bytes.subrange(0, 16) == req.qkd_key_id@,
        bytes.subrange(16, 48) == req.nonce@,
{
}

/// Why a message of the peer was not accepted.
#[derive(Debug, Clone, Copy, PartialEq, Eq)]
pub enum ProtocolError {
    /// The acknowledgement was not the expected octet.
    InvalidRekeyAck { received: u8 },
    /// Something arrived that the role was not waiting for.
    UnexpectedEvent,
}

/// Confirms that the peer has fetched the key of the round.
#[derive(Debug, Clone, Copy, PartialEq, Eq)]
pub struct RekeyAck {
    pub dummy_data: u8,
}

/// The octet of the one acknowledgement that is valid.
pub const REKEY_ACK: u8 = 0x01;

impl RekeyAck {
    /// Length in octets of an acknowledgement on the wire.
    pub const LEN: usize = 1;

    /// The one acknowledgement that is valid.
    pub fn new() -> (ack: Self)
        ensures
            ack.dummy_data == REKEY_ACK,
    {
        Self { dummy_data: REKEY_ACK }
    }

    /// Accepts the acknowledgement `0x01` and rejects every other octet.
    pub fn validate(&self) -> (res: Result<(), ProtocolError>)
        ensures
            self.dummy_data == REKEY_ACK ==> res is Ok,
            self.dummy_data != REKEY_ACK ==> res == Err::<(), ProtocolError>(
                ProtocolError::InvalidRekeyAck { received: self.dummy_data },
            ),
    {
        if self.dummy_data == REKEY_ACK {
            Ok(())
        } else {
            Err(ProtocolError::InvalidRekeyAck { received: self.dummy_data })
        }
    }

    /// The acknowledgement as it is sent: one octet.
    pub fn to_bytes(&self) -> (bytes: [u8; 1])
        ensures
            bytes@ == seq![self.dummy_data],
    {
        let bytes = [self.dummy_data];
        bytes
    }

    /// The acknowledgement that was sent as `bytes`.
    pub fn from_bytes(bytes: &[u8; 1]) -> (ack: Self)
        ensures
            ack.dummy_data == bytes@[0],
    {
        Self { dummy_data: bytes[0] }
    }
}

} // verus!
