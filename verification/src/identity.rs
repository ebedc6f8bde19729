//! The local player identity.
//!
//! A stable per-installation player id is a UUID persisted to a small
//! preferences file. Reading and writing that file is the embedder's work;
//! the resolution rule lives here: a stored id wins, and without one a
//! fresh UUID is generated, so resolution is total and never fails.

use vstd::prelude::*;

verus! {

pub open spec fn is_lower_hex_digit(c: char) -> bool {
    ('0' <= c && c <= '9') || ('a' <= c && c <= 'f')
}

/// The hyphenated textual form of a UUID: 36 characters of lowercase hex
/// with dashes at positions 8, 13, 18 and 23.
pub open spec fn is_uuid_hyphenated(s: Seq<char>) -> bool {
    &&& s.len() == 36
    &&& forall|i: int|
        #![trigger s[i]]
        0 <= i < 36 ==> {
            &&& (i == 8 || i == 13 || i == 18 || i == 23) ==> s[i] == '-'
            &&& !(i == 8 || i == 13 || i == 18 || i == 23) ==> is_lower_hex_digit(s[i])
        }
}

/// Relies on `uuid::Uuid::new_v4` and the `Display` impl of `Uuid`: a fresh
/// random UUID rendered hyphenated in lowercase hex, 36 characters long.
/// Nothing more is promised of a random value.
#[verifier::external_body]
pub(crate) fn fresh_uuid() -> (r: String)
    ensures
        is_uuid_hyphenated(r@),
{
    uuid::Uuid::new_v4().to_string()
}

/// Where a resolved player id came from.
#[derive(Clone, Copy, PartialEq, Eq, Structural, Debug)]
pub enum PlayerIdSource {
    /// Read back from the preferences file.
    Stored,
    /// Freshly generated; the caller should persist it if it can.
    Generated,
}

pub struct PlayerIdResolution {
    pub id: String,
    pub source: PlayerIdSource,
}

/// Resolves the player id from what the preferences file held, if anything.
/// A stored id is kept verbatim; otherwise a fresh UUID is handed back for
/// the caller to persist (or to use ephemerally when the filesystem is
/// unavailable).
pub fn resolve_player_id(stored: Option<String>) -> (r: PlayerIdResolution)
    ensures
        stored matches Some(s) ==> r.id == s && r.source == PlayerIdSource::Stored,
        stored is None ==> is_uuid_hyphenated(r.id@) && r.source == PlayerIdSource::Generated,
{
    match stored {
        Some(id) => PlayerIdResolution { id, source: PlayerIdSource::Stored },
        None => PlayerIdResolution { id: fresh_uuid(), source: PlayerIdSource::Generated },
    }
}

} // verus!
