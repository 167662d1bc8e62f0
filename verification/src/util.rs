//! Small helpers shared by the other modules: base64 for keys, reading with a limit, and a
//! few conveniences.

use base64ct::{Base64, Encoding};
use vstd::prelude::*;

use crate::crypto::basics::{Key, KEY_LENGTH_B64};

verus! {

/// The 16 octets of a UUID, each field in little-endian byte order.
pub type UuidBytes = [u8; 16];

/// The 64 octets of a connection identifier.
pub type ConnectionIdBytes = [u8; 64];

/// Why a text is not the base64 form of a key.
#[derive(Debug, Clone, Copy, PartialEq, Eq, Structural)]
pub enum Base64Error {
    /// The text is not padded standard base64.
    InvalidEncoding,
    /// The text stands for a number of octets other than the 32 of a key.
    InvalidLength,
}

/// What decoding `encoded` as padded standard base64 into a buffer of 32 octets yields: the
/// octets that `encoded` stands for, at most 32 of them, or the reason why there are none.
pub uninterp spec fn base64_decoded_key(encoded: Seq<u8>) -> Result<Seq<u8>, Base64Error>;

/// The padded standard base64 form of `bytes`.
pub uninterp spec fn base64_encoded(bytes: Seq<u8>) -> Seq<char>;

/// Decodes `encoded` as padded standard base64 into a buffer of 32 octets.
///
/// Trusted: the body calls `base64ct::Base64::decode` with a destination of 32 octets and
/// copies the decoded part out. The contract names the outcome [`base64_decoded_key`] and
/// claims that what was decoded fits the buffer, as `decode` returns a part of it.
#[verifier::external_body]
pub(crate) fn base64_decode_key(encoded: &[u8]) -> (res: Result<Vec<u8>, Base64Error>)
    ensures
        match res {
            Ok(decoded) => base64_decoded_key(encoded@) == Ok::<Seq<u8>, Base64Error>(decoded@),
            Err(err) => base64_decoded_key(encoded@) == Err::<Seq<u8>, Base64Error>(err),
        },
        res matches Ok(decoded) ==> decoded@.len() <= 32,
{
    let mut dst = [0u8; 32];
    match Base64::decode(encoded, &mut dst) {
        Ok(decoded) => Ok(decoded.to_vec()),
        Err(base64ct::Error::InvalidEncoding) => Err(Base64Error::InvalidEncoding),
        Err(base64ct::Error::InvalidLength) => Err(Base64Error::InvalidLength),
    }
}

/// Encodes `key` as padded standard base64.
///
/// Trusted: the body calls `base64ct::Base64::encode_string`. The contract names the text
/// [`base64_encoded`].
#[verifier::external_body]
pub(crate) fn base64_encode_key(key: &Key) -> (encoded: String)
    ensures
        encoded@ == base64_encoded(key@),
{
    Base64::encode_string(key)
}

/// The key that a base64 text stands for. A key has exactly 32 octets: a text that stands
/// for fewer or for more is no key.
pub open spec fn key_of_base64(encoded: Seq<u8>) -> Result<Seq<u8>, Base64Error> {
    match base64_decoded_key(encoded) {
        Ok(decoded) => if decoded.len() == 32 {
            Ok(decoded)
        } else {
            Err(Base64Error::InvalidLength)
        },
        Err(err) => Err(err),
    }
}

/// Decodes the base64 form of a key. The text has to be padded standard base64 and to stand
/// for exactly 32 octets.
pub fn base64_to_key(encoded_key: &[u8]) -> (res: Result<Key, Base64Error>)
    ensures
        match res {
            Ok(key) => key_of_base64(encoded_key@) == Ok::<Seq<u8>, Base64Error>(key@),
            Err(err) => key_of_base64(encoded_key@) == Err::<Seq<u8>, Base64Error>(err),
        },
{
    match base64_decode_key(encoded_key) {
        Ok(decoded) => {
            if decoded.len() != 32 {
                return Err(Base64Error::InvalidLength);
            }
            let mut key: Key = [0u8; 32];
            let mut i: usize = 0;
            while i < 32
                invariant
                    i <= 32,
                    decoded@.len() == 32,
                    forall|k: int| 0 <= k < i ==> key@[k] == decoded@[k],
                decreases 32 - i,
            {
                key[i] = decoded[i];
                i += 1;
            }
            assert(key@ =~= decoded@);
            Ok(key)
        },
        Err(err) => Err(err),
    }
}

/// The base64 form of a key.
pub fn key_to_base64(key: &Key) -> (encoded: String)
    ensures
        encoded@ == base64_encoded(key@),
{
    base64_encode_key(key)
}

/// The part of a key file that is decoded: at most [`KEY_LENGTH_B64`] octets from the start
/// of the file, without the line feed that may end them.
pub open spec fn key_file_text(contents: Seq<u8>) -> Seq<u8> {
    let head = if contents.len() <= KEY_LENGTH_B64 {
        contents
    } else {
        contents.subrange(0, KEY_LENGTH_B64 as int)
    };
    if head.len() > 0 && head.last() == 10u8 {
        head.drop_last()
    } else {
        head
    }
}

/// The key that a key file holds. Of the file, at most [`KEY_LENGTH_B64`] octets are looked
/// at; one trailing line feed among them is ignored.
pub fn key_from_base64_file(contents: &[u8]) -> (res: Result<Key, Base64Error>)
    ensures
        match res {
            Ok(key) => key_of_base64(key_file_text(contents@)) == Ok::<Seq<u8>, Base64Error>(key@),
            Err(err) => key_of_base64(key_file_text(contents@)) == Err::<Seq<u8>, Base64Error>(
                err,
            ),
        },
{
    let mut len = if contents.len() <= KEY_LENGTH_B64 {
        contents.len()
    } else {
        KEY_LENGTH_B64
    };
    if len > 0 && contents[len - 1] == 10u8 {
        len = len - 1;  // Trim trailing newline
    }
    let mut text: Vec<u8> = Vec::new();
    let mut i: usize = 0;
    while i < len
        invariant
            i <= len <= contents.len(),
            text@ == contents@.subrange(0, i as int),
        decreases len - i,
    {
        text.push(contents[i]);
        i += 1;
    }
    assert(text@ =~= key_file_text(contents@));
    base64_to_key(text.as_slice())
}

/// What one attempt to read gave.
#[derive(Debug, Clone, Copy, PartialEq, Eq, Structural)]
pub enum ReadOutcome {
    /// This many octets were read; none at the end of the input.
    Read(usize),
    /// The attempt was interrupted before anything was read.
    Interrupted,
    /// The attempt failed.
    Failed,
}

/// What to do after one attempt to read.
#[derive(Debug, Clone, Copy, PartialEq, Eq, Structural)]
pub enum ReadStep {
    /// Read again, into the buffer from this position on.
    ReadAt(usize),
    /// Stop: the buffer holds this many octets of input.
    Done(usize),
    /// Stop with the error of the attempt.
    Failed,
}

/// Keeps count while a buffer is filled from an input, until the buffer is full or the
/// input is at its end. An attempt that was interrupted is made again.
#[derive(Debug, Clone, Copy)]
pub struct ReadExt {
    capacity: usize,
    red: usize,
}

impl ReadExt {
    /// The length of the buffer.
    pub closed spec fn capacity(&self) -> usize {
        self.capacity
    }

    /// How many octets the buffer holds.
    pub closed spec fn red(&self) -> usize {
        self.red
    }

    /// Nothing is read more than fits.
    pub open spec fn wf(&self) -> bool {
        self.red() <= self.capacity()
    }

    /// The step to take when `red` octets are in a buffer of `capacity` octets.
    pub open spec fn step_at(capacity: usize, red: usize) -> ReadStep {
        if red >= capacity {
            ReadStep::Done(red)
        } else {
            ReadStep::ReadAt(red)
        }
    }

    /// Starts to fill a buffer of `capacity` octets. A buffer without room is done at once.
    pub fn read_to_end_up_to(capacity: usize) -> (started: (Self, ReadStep))
        ensures
            started.0.wf(),
            started.0.capacity() == capacity,
            started.0.red() == 0,
            started.1 == Self::step_at(capacity, 0),
    {
        let progress = Self { capacity, red: 0 };
        let step = progress.next_step();
        (progress, step)
    }

    /// The step to take as things stand.
    fn next_step(&self) -> (step: ReadStep)
        ensures
            step == Self::step_at(self.capacity(), self.red()),
    {
        if self.red >= self.capacity {
            ReadStep::Done(self.red)
        } else {
            ReadStep::ReadAt(self.red)
        }
    }

    /// How many octets the buffer holds.
    pub fn octets_read(&self) -> (red: usize)
        ensures
            red == self.red(),
    {
        self.red
    }

    /// Takes note of one attempt to read into the rest of the buffer. Octets that were read
    /// are counted, and reading goes on while there is room. No octets mean the end of the
    /// input. An interrupted attempt is made again. A failed attempt ends the reading.
    pub fn on_read(&mut self, outcome: ReadOutcome) -> (step: ReadStep)
        requires
            old(self).wf(),
            outcome matches ReadOutcome::Read(count) ==> count <= old(self).capacity() - old(
                self,
            ).red(),
        ensures
            final(self).wf(),
            final(self).capacity() == old(self).capacity(),
            match outcome {
                ReadOutcome::Read(count) => {
                    &&& final(self).red() == old(self).red() + count
                    &&& step == if count == 0 {
                        ReadStep::Done(old(self).red())
                    } else {
                        Self::step_at(old(self).capacity(), final(self).red())
                    }
                },
                ReadOutcome::Interrupted => {
                    &&& final(self).red() == old(self).red()
                    &&& step == Self::step_at(old(self).capacity(), old(self).red())
                },
                ReadOutcome::Failed => {
                    &&& final(self).red() == old(self).red()
                    &&& step == ReadStep::Failed
                },
            },
    {
        match outcome {
            ReadOutcome::Read(count) => {
                if count == 0 {
                    return ReadStep::Done(self.red);
                }
                self.red += count;
                self.next_step()
            },
            ReadOutcome::Interrupted => self.next_step(),
            ReadOutcome::Failed => ReadStep::Failed,
        }
    }
}

/// Calls `f` and returns what it returns.
pub fn run<R, F: FnOnce() -> R>(f: F) -> (r: R)
    requires
        call_requires(f, ()),
    ensures
        call_ensures(f, (), r),
{
    f()
}

/// Wraps a value in `Ok`.
pub trait OkExt<E>: Sized {
    /// The value, as a success.
    fn ok(self) -> (res: Result<Self, E>)
        ensures
            res == Ok::<Self, E>(self),
    ;
}

impl<T, E> OkExt<E> for T {
    fn ok(self) -> (res: Result<Self, E>) {
        Ok(self)
    }
}

/// Wraps a value in `Some`.
pub trait SomeExt: Sized {
    /// The value, as an option that holds it.
    fn some(self) -> (res: Option<Self>)
        ensures
            res == Some(self),
    ;
}

impl<T> SomeExt for T {
    fn some(self) -> (res: Option<Self>) {
        Some(self)
    }
}

/// Lets go of a value.
pub trait DiscardResultExt {
    /// Consumes the value and does nothing with it.
    fn discard_result(self);
}

impl<T> DiscardResultExt for T {
    fn discard_result(self) {
    }
}

/// The length of a type whose values all have one length.
pub trait ConstLenExt {
    const LEN: usize;
}

impl<T, const L: usize> ConstLenExt for [T; L] {
    const LEN: usize = L;
}

/// Changes a value in passing.
pub trait CascadeExt: Sized {
    /// The value after `f` has worked on it.
    fn cas<F: FnOnce(&mut Self)>(self, f: F) -> (res: Self)
        requires
            forall|value: &mut Self| call_requires(f, (value,)),
        ensures
            exists|value: &mut Self|
                *value == self && #[trigger] call_ensures(f, (value,), ()) && *final(value) == res,
    ;
}

impl<T: Sized> CascadeExt for T {
    fn cas<F: FnOnce(&mut Self)>(self, f: F) -> (res: Self) {
        let mut value = self;
        f(&mut value);
        value
    }
}

} // verus!
