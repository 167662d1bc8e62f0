//! What is handed to the consumer of output keys, and why.

use vstd::prelude::*;

use crate::crypto::basics::{random_key, Key};

pub mod deadman;
pub mod outfile;
pub mod wireguard;

verus! {

/// Why the consumer is given a key.
#[derive(Debug, Copy, Clone, PartialEq, Eq, PartialOrd, Ord, Structural)]
pub enum SetOskReason {
    /// This is a new, secure key.
    Fresh,
    /// This is a randomly chosen, invalid key, used to erase the key before it.
    Stale,
}

/// One instruction to the consumer: install `key`, for the reason given.
#[derive(Debug, Copy, Clone)]
pub struct OskUpdate {
    pub key: Key,
    pub reason: SetOskReason,
}

impl OskUpdate {
    /// The instruction to install `key` for `reason`.
    pub fn set_osk(key: Key, reason: SetOskReason) -> (update: Self)
        ensures
            update.key == key,
            update.reason == reason,
    {
        Self { key, reason }
    }

    /// The instruction to install `key` as a fresh key.
    pub fn set_fresh_osk(key: Key) -> (update: Self)
        ensures
            update.key == key,
            update.reason == SetOskReason::Fresh,
    {
        Self::set_osk(key, SetOskReason::Fresh)
    }

    /// The instruction that erases whatever key is installed: a key drawn at random, marked
    /// stale. The random key makes sure that nothing encrypted before can be read after.
    pub fn erase_stale_osk() -> (update: Self)
        ensures
            update.reason == SetOskReason::Stale,
    {
        let key = random_key();
        Self::set_osk(key, SetOskReason::Stale)
    }
}

} // verus!
