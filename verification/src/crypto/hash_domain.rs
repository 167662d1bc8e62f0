//! Domain-separated hashing on top of the SHAKE-256 extendable-output function.
//!
//! A hash domain is a 32-octet key. Mixing data into a domain hashes the key followed by the
//! data and reads as many output octets as the caller asks for.

use sha3::digest::ExtendableOutput;
use sha3::Shake256;
use vstd::prelude::*;

use super::basics::Key;

verus! {

/// The first `len` octets that SHAKE-256 outputs after absorbing `input`.
pub uninterp spec fn shake256(input: Seq<u8>, len: nat) -> Seq<u8>;

/// Hashes `input` with SHAKE-256 and reads `N` octets of output.
///
/// Trusted: the body calls `sha3::Shake256::digest_xof`, which absorbs `input` into a fresh
/// hasher and fills the destination from the start of the output stream. The contract gives
/// those `N` octets the name [`shake256`]; nothing about their value is proved here.
#[verifier::external_body]
fn shake256_xof<const N: usize>(input: &[u8]) -> (out: [u8; N])
    ensures
        out@ == shake256(input@, N as nat),
{
    let mut out = [0u8; N];
    Shake256::digest_xof(input, &mut out);
    out
}

/// What a domain with key `key` outputs when `data` is mixed in and `len` octets are read.
pub open spec fn mix_output(key: Seq<u8>, data: Seq<u8>, len: nat) -> Seq<u8> {
    shake256(key + data, len)
}

/// The octets of `key` followed by those of `data`.
fn keyed_message(key: &Key, data: &[u8]) -> (msg: Vec<u8>)
    ensures
        msg@ == key@ + data@,
{
    let mut msg: Vec<u8> = Vec::new();
    let mut i: usize = 0;
    while i < 32
        invariant
            i <= 32,
            msg@ == key@.subrange(0, i as int),
        decreases 32 - i,
    {
        msg.push(key[i]);
        i += 1;
    }
    let mut j: usize = 0;
    while j < data.len()
        invariant
            j <= data.len(),
            msg@ == key@ + data@.subrange(0, j as int),
        decreases data.len() - j,
    {
        msg.push(data[j]);
        j += 1;
    }
    msg
}

/// The 32 octets of `bytes` that start at `start`.
fn key_at<const N: usize>(bytes: &[u8; N], start: usize) -> (key: Key)
    requires
        start + 32 <= N,
    ensures
        key@ == bytes@.subrange(start as int, start + 32),
{
    let mut key: Key = [0u8; 32];
    let mut i: usize = 0;
    while i < 32
        invariant
            i <= 32,
            start + 32 <= N,
            forall|k: int| 0 <= k < i ==> key@[k] == bytes@[start + k],
        decreases 32 - i,
    {
        key[i] = bytes[start + i];
        i += 1;
    }
    key
}

/// A hashing context identified by a 32-octet key.
#[derive(Debug)]
pub struct HashDomain {
    pub key: Key,
}

impl Clone for HashDomain {
    fn clone(&self) -> (copy: Self)
        ensures
            copy == *self,
    {
        Self { key: self.key }
    }
}

impl HashDomain {
    /// The domain whose key is all zero.
    pub fn zero() -> (domain: Self)
        ensures
            domain.key@ == Seq::new(32, |i: int| 0u8),
    {
        let domain = Self::new([0u8; 32]);
        domain
    }

    /// The domain with the given key.
    pub fn new(key: Key) -> (domain: Self)
        ensures
            domain.key == key,
    {
        Self { key }
    }

    /// Mixes `data` into the domain and fills `out` with the output.
    pub fn mix_read_into<const N: usize>(self, data: &[u8], out: &mut [u8; N])
        ensures
            final(out)@ == mix_output(self.key@, data@, N as nat),
    {
        let msg = keyed_message(&self.key, data);
        *out = shake256_xof::<N>(msg.as_slice());
    }

    /// Mixes `data` into the domain and returns `N` octets of output.
    pub fn mix_read<const N: usize>(self, data: &[u8]) -> (out: [u8; N])
        ensures
            out@ == mix_output(self.key@, data@, N as nat),
    {
        let mut out = [0u8; N];
        self.mix_read_into(data, &mut out);
        out
    }

    /// The domain whose key is the first 32 octets of output after mixing in `data`.
    pub fn mix(self, data: &[u8]) -> (domain: Self)
        ensures
            domain.key@ == mix_output(self.key@, data@, 32),
    {
        Self { key: self.mix_read::<32>(data) }
    }

    /// Splits the domain in two: the keys are octets 0..32 and 32..64 of the output after
    /// mixing in `data`.
    pub fn mix_fork(self, data: &[u8]) -> (domains: (Self, Self))
        ensures
            domains.0.key@ == mix_output(self.key@, data@, 64).subrange(0, 32),
            domains.1.key@ == mix_output(self.key@, data@, 64).subrange(32, 64),
    {
        let out = self.mix_read::<64>(data);
        (Self::new(key_at(&out, 0)), Self::new(key_at(&out, 32)))
    }

    /// Splits the domain in three: the keys are octets 0..32, 32..64 and 64..96 of the output
    /// after mixing in `data`.
    pub fn mix_trifork(self, data: &[u8]) -> (domains: (Self, Self, Self))
        ensures
            domains.0.key@ == mix_output(self.key@, data@, 96).subrange(0, 32),
            domains.1.key@ == mix_output(self.key@, data@, 96).subrange(32, 64),
            domains.2.key@ == mix_output(self.key@, data@, 96).subrange(64, 96),
    {
        let out = self.mix_read::<96>(data);
        (Self::new(key_at(&out, 0)), Self::new(key_at(&out, 32)), Self::new(key_at(&out, 64)))
    }

    /// The key of the domain.
    pub fn into_key(self) -> (key: Key)
        ensures
            key == self.key,
    {
        self.key
    }
}

} // verus!
