//! A stand-in for a key distribution device, for trying the daemon out.
//!
//! The stand-in answers the two requests that the daemon makes. Asked for a key of its choice,
//! it numbers its keys with a counter. Asked for a key by identifier, it hands out the key
//! that belongs to the identifier. Every key is its identifier, twice. Serving HTTP is the
//! caller's part.

use uuid::Uuid;
use vstd::prelude::*;

use crate::crypto::basics::Key;
use crate::etsi014::{uuid_text, uuid_to_text, uuid_written_order};
use crate::util::{base64_encoded, key_to_base64, UuidBytes};

verus! {

/// The ASCII text `dec_keys`.
pub const DEC_KEYS: [u8; 8] = [100, 101, 99, 95, 107, 101, 121, 115];

/// The ASCII text `enc_keys`.
pub const ENC_KEYS: [u8; 8] = [101, 110, 99, 95, 107, 101, 121, 115];

/// The ASCII text `key_ID=`.
pub const KEY_ID_PARAM: [u8; 7] = [107, 101, 121, 95, 73, 68, 61];

/// `needle` stands in `hay` at position `at`.
pub open spec fn occurs_at(hay: Seq<u8>, needle: Seq<u8>, at: int) -> bool {
    &&& 0 <= at
    &&& at + needle.len() <= hay.len()
    &&& hay.subrange(at, at + needle.len()) == needle
}

/// `needle` stands somewhere in `hay`.
pub open spec fn contains(hay: Seq<u8>, needle: Seq<u8>) -> bool {
    exists|at: int| occurs_at(hay, needle, at)
}

/// `needle` stands in `hay` at position `at` and nowhere before.
pub open spec fn first_at(hay: Seq<u8>, needle: Seq<u8>, at: int) -> bool {
    &&& occurs_at(hay, needle, at)
    &&& forall|before: int| 0 <= before < at ==> !occurs_at(hay, needle, before)
}

/// Whether `needle` stands in `hay` at position `at`.
fn matches_at(hay: &[u8], needle: &[u8], at: usize) -> (matches: bool)
    requires
        at + needle.len() <= hay.len(),
    ensures
        matches == occurs_at(hay@, needle@, at as int),
{
    let mut i: usize = 0;
    while i < needle.len()
        invariant
            i <= needle.len(),
            at + needle.len() <= hay.len(),
            forall|k: int| 0 <= k < i ==> hay@[at + k] == needle@[k],
        decreases needle.len() - i,
    {
        if hay[at + i] != needle[i] {
            return false;
        }
        i += 1;
    }
    assert(hay@.subrange(at as int, at + needle.len()) =~= needle@);
    true
}

/// The first position at which `needle` stands in `hay`.
pub fn find(hay: &[u8], needle: &[u8]) -> (pos: Option<usize>)
    ensures
        match pos {
            Some(at) => first_at(hay@, needle@, at as int),
            None => !contains(hay@, needle@),
        },
{
    if needle.len() > hay.len() {
        return None;
    }
    let last = hay.len() - needle.len();
    let mut at: usize = 0;
    while at <= last
        invariant
            at <= last + 1,
            last == hay.len() - needle.len(),
            forall|before: int| 0 <= before < at ==> !occurs_at(hay@, needle@, before),
        decreases last + 1 - at,
    {
        if matches_at(hay, needle, at) {
            return Some(at);
        }
        assert(needle@.len() > 0) by {
            if needle@.len() == 0 {
                assert(hay@.subrange(at as int, at as int) =~= needle@);
            }
        }
        at += 1;
    }
    None
}

/// What a request asks for.
#[derive(Debug, Clone, Copy)]
pub enum KeyRequest {
    /// A key of the device's choice.
    Enc,
    /// The key with this identifier.
    Dec(UuidBytes),
}

/// Why a request is turned down.
#[derive(Debug, Clone, Copy, PartialEq, Eq, Structural)]
pub enum BadRequest {
    /// The path names neither `enc_keys` nor `dec_keys`.
    UnknownEndpoint,
    /// The request for a key by identifier has no query.
    MissingQuery,
    /// The query has no `key_ID=`.
    MissingKeyId,
    /// What follows `key_ID=` is not a UUID.
    InvalidKeyId,
}

impl BadRequest {
    /// What the client is told.
    pub fn message(&self) -> (msg: &'static str)
        ensures
            msg@ == match *self {
                BadRequest::UnknownEndpoint => "Only one of /dec_keys or /enc_keys is allowed"@,
                BadRequest::MissingQuery => "key_ID parameter is required"@,
                BadRequest::MissingKeyId => "Invalid key_ID format"@,
                BadRequest::InvalidKeyId => "Invalid key_ID format"@,
            },
    {
        match self {
            BadRequest::UnknownEndpoint => "Only one of /dec_keys or /enc_keys is allowed",
            BadRequest::MissingQuery => "key_ID parameter is required",
            BadRequest::MissingKeyId => "Invalid key_ID format",
            BadRequest::InvalidKeyId => "Invalid key_ID format",
        }
    }
}

/// The UUID that `text` spells, with each field in little-endian byte order; `None` where
/// `text` spells no UUID.
pub uninterp spec fn uuid_parsed(text: Seq<u8>) -> Option<Seq<u8>>;

/// Reads a UUID.
///
/// Trusted: the body calls `uuid::Uuid::try_parse_ascii` and takes the octets of the result
/// with `Uuid::to_bytes_le`. The contract names the outcome [`uuid_parsed`].
#[verifier::external_body]
fn uuid_parse(text: &[u8]) -> (id: Option<UuidBytes>)
    ensures
        match id {
            Some(id) => uuid_parsed(text@) == Some(id@),
            None => uuid_parsed(text@) is None,
        },
{
    match Uuid::try_parse_ascii(text) {
        Ok(uuid) => Some(uuid.to_bytes_le()),
        Err(_) => None,
    }
}

/// The identifier of the key with the number `count`: eight zero octets, then the number,
/// most significant octet first.
pub open spec fn counter_key_id(count: u64) -> Seq<u8> {
    Seq::new(
        16,
        |i: int|
            if i < 8 {
                0u8
            } else {
                ((count as int / vstd::arithmetic::power::pow(256, (15 - i) as nat)) % 256) as u8
            },
    )
}

/// The identifier of the key with the number `count`.
///
/// Trusted: the body calls `uuid::Uuid::from_u128`, which takes the octets of the number in
/// big-endian order, and `Uuid::to_bytes_le`, which reverses the first three fields. The
/// number is below 2^64, so these fields are zero, and the contract claims that the result
/// is [`counter_key_id`].
#[verifier::external_body]
fn uuid_from_count(count: u64) -> (id: UuidBytes)
    ensures
        id@ == counter_key_id(count),
{
    Uuid::from_u128(u128::from(count)).to_bytes_le()
}

/// The key that belongs to an identifier: the identifier as it is written, twice.
pub open spec fn simulated_key(id: Seq<u8>) -> Seq<u8> {
    uuid_written_order(id) + uuid_written_order(id)
}

/// What the path and the query of a request ask for. The position of `key_ID=` in the
/// query is the first one; everything after it has to be the UUID.
pub open spec fn key_request(path: Seq<u8>, query: Option<Seq<u8>>) -> Result<
    Option<Seq<u8>>,
    BadRequest,
> {
    if !contains(path, DEC_KEYS@) && !contains(path, ENC_KEYS@) {
        Err(BadRequest::UnknownEndpoint)
    } else if contains(path, DEC_KEYS@) {
        match query {
            None => Err(BadRequest::MissingQuery),
            Some(query) => if !contains(query, KEY_ID_PARAM@) {
                Err(BadRequest::MissingKeyId)
            } else {
                let at = choose|at: int| first_at(query, KEY_ID_PARAM@, at);
                match uuid_parsed(query.subrange(at + 7, query.len() as int)) {
                    Some(id) => Ok(Some(id)),
                    None => Err(BadRequest::InvalidKeyId),
                }
            },
        }
    } else {
        Ok(None)
    }
}

/// One answer of the stand-in: the identifier of a key as text, and the key in base64.
#[derive(Debug)]
pub struct KeyResponse {
    pub key_id: String,
    pub key: String,
}

/// Decides what a request asks for, from the path and the query of its address. A path
/// with `dec_keys` asks for the key whose identifier follows `key_ID=` in the query; any
/// other path with `enc_keys` asks for a key of the device's choice.
pub fn handle_keys(path: &[u8], query: Option<&[u8]>) -> (res: Result<KeyRequest, BadRequest>)
    ensures
        match res {
            Ok(KeyRequest::Enc) => key_request(
                path@,
                match query {
                    Some(q) => Some(q@),
                    None => None,
                },
            ) == Ok::<Option<Seq<u8>>, BadRequest>(None),
            Ok(KeyRequest::Dec(id)) => key_request(
                path@,
                match query {
                    Some(q) => Some(q@),
                    None => None,
                },
            ) == Ok::<Option<Seq<u8>>, BadRequest>(Some(id@)),
            Err(err) => key_request(
                path@,
                match query {
                    Some(q) => Some(q@),
                    None => None,
                },
            ) == Err::<Option<Seq<u8>>, BadRequest>(err),
        },
{
    let dec = find(path, DEC_KEYS.as_slice()).is_some();
    let enc = find(path, ENC_KEYS.as_slice()).is_some();
    if !dec && !enc {
        return Err(BadRequest::UnknownEndpoint);
    }
    if !dec {
        return Ok(KeyRequest::Enc);
    }
    match query {
        None => Err(BadRequest::MissingQuery),
        Some(q) => match find(q, KEY_ID_PARAM.as_slice()) {
            None => Err(BadRequest::MissingKeyId),
            Some(pos) => {
                let len = q.len();
                proof {
                    // The first position is the one that the query is defined by.
                    let at = choose|at: int| first_at(q@, KEY_ID_PARAM@, at);
                    assert(at == pos);
                }
                let rest = vstd::slice::slice_subrange(q, pos + 7, len);
                match uuid_parse(rest) {
                    Some(id) => Ok(KeyRequest::Dec(id)),
                    None => Err(BadRequest::InvalidKeyId),
                }
            },
        },
    }
}

/// The identifier of the next key of the device's choice, given the counter.
pub fn next_key_id(count: u64) -> (id: UuidBytes)
    ensures
        id@ == counter_key_id(count),
{
    uuid_from_count(count)
}

/// The answer for the key with the identifier `id`.
pub fn key_response(id: &UuidBytes) -> (response: KeyResponse)
    ensures
        response.key_id@ == uuid_text(id@),
        response.key@ == base64_encoded(simulated_key(id@)),
{
    let mut key_input: Key = [0u8; 32];
    let order: [usize; 16] = [3, 2, 1, 0, 5, 4, 7, 6, 8, 9, 10, 11, 12, 13, 14, 15];
    let mut i: usize = 0;
    while i < 16
        invariant
            i <= 16,
            order@ == seq![3usize, 2, 1, 0, 5, 4, 7, 6, 8, 9, 10, 11, 12, 13, 14, 15],
            forall|k: int| 0 <= k < i ==> key_input@[k] == id@[order@[k] as int],
            forall|k: int| 0 <= k < i ==> key_input@[16 + k] == id@[order@[k] as int],
        decreases 16 - i,
    {
        key_input[i] = id[order[i]];
        key_input[16 + i] = id[order[i]];
        i += 1;
    }
    assert(key_input@ =~= simulated_key(id@));
    KeyResponse { key_id: uuid_to_text(id), key: key_to_base64(&key_input) }
}

} // verus!
