//! The consumer that keeps the output key in a file.
//!
//! The file holds the base64 form of the key and nothing else. After each write one line on
//! standard output tells whoever listens that the file has changed, and why. Writing the file
//! and printing the line are the caller's part.

use vstd::prelude::*;
use vstd::string::StringExecFns;

use super::SetOskReason;
use crate::crypto::basics::Key;
use crate::util::{base64_encoded, key_to_base64};

verus! {

/// The word that tells a listener why the file has changed.
pub open spec fn why_word(reason: SetOskReason) -> Seq<char> {
    match reason {
        SetOskReason::Fresh => "exchanged"@,
        SetOskReason::Stale => "stale"@,
    }
}

/// The line that tells a listener that the file at `path` has changed: `output-key`, the
/// path as it is, and the word for the reason, with one blank between them.
pub open spec fn output_key_line(path: Seq<char>, reason: SetOskReason) -> Seq<char> {
    "output-key "@ + path + " "@ + why_word(reason)
}

/// What to write and what to print for one update.
#[derive(Debug)]
pub struct OutfileUpdate {
    /// The file to create or to overwrite.
    pub path: String,
    /// What the file is to hold.
    pub contents: String,
    /// The line to print on standard output once the file is written.
    pub notice: String,
}

/// The consumer that keeps the output key in the file `path`.
#[derive(Debug)]
pub struct OutfileOskHandler {
    pub path: String,
}

impl OutfileOskHandler {
    /// The consumer that writes to `path`.
    pub fn new(path: &str) -> (handler: Self)
        ensures
            handler.path@ == path@,
    {
        Self { path: String::from_str(path) }
    }

    /// What installing `key` takes: the file gets the base64 form of the key, and the line
    /// on standard output says `exchanged` for a fresh key and `stale` for a stale one.
    pub fn osk_update(&self, key: Key, reason: SetOskReason) -> (update: OutfileUpdate)
        ensures
            update.path@ == self.path@,
            update.contents@ == base64_encoded(key@),
            update.notice@ == output_key_line(self.path@, reason),
    {
        let why = match reason {
            SetOskReason::Fresh => "exchanged",
            SetOskReason::Stale => "stale",
        };
        let contents = key_to_base64(&key);
        let notice = String::from_str("output-key ");
        let notice = notice.concat(self.path.as_str());
        let notice = notice.concat(" ");
        let notice = notice.concat(why);
        OutfileUpdate { path: self.path.clone(), contents, notice }
    }
}

} // verus!
