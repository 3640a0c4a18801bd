//! The rules of the catalog store that need no store: how names are
//! normalized, when a lookup is needed at all, and how a duplicate track is
//! marked. The store itself is the caller's; it asks these functions what to
//! do before and after each query.

use vstd::prelude::*;
use crate::text::{is_blank_spec, trim, trimmed};

verus! {

/// The artist that stands for "unknown"; the store holds it from the start.
pub const UNKNOWN_ARTIST_ID: i64 = 1;

/// The album that stands for "unknown"; the store holds it from the start.
pub const UNKNOWN_ALBUM_ID: i64 = 1;

/// The first step of a find-or-create.
#[derive(Debug)]
pub enum Lookup {
    /// The id is known without asking the store.
    Known(i64),
    /// The store is to be searched for this normalized name.
    Search(String),
}

/// The second step of a find-or-create, once the store has been searched.
#[derive(Clone, Copy, Debug, PartialEq, Eq, Structural)]
pub enum Settlement {
    /// The store holds the name under this id: nothing is created.
    Found(i64),
    /// The store does not hold the name: it is to be created.
    Create,
}

/// What to do with a track once the store has been searched for its file.
#[derive(Clone, Copy, Debug, PartialEq, Eq, Structural)]
pub enum Admission {
    /// The file is in the catalog already; the value is the existing id,
    /// negated to mark the duplicate.
    Duplicate(i64),
    /// The file is new: the track is to be inserted.
    Insert,
}

/// The first step for a normalized name, where the empty name stands for
/// `unknown_id`.
pub open spec fn lookup_key_spec(key: String, unknown_id: i64) -> Lookup {
    if key@.len() == 0 {
        Lookup::Known(unknown_id)
    } else {
        Lookup::Search(key)
    }
}

/// The first step for a name whose blank form stands for `unknown_id`.
pub open spec fn lookup_spec(name: Seq<char>, unknown_id: i64, lookup: Lookup) -> bool {
    if is_blank_spec(name) {
        lookup == Lookup::Known(unknown_id)
    } else {
        lookup is Search && lookup->Search_0@ == trimmed(name)
    }
}

/// The first step of a find-or-create for a name that is normalized
/// already: the empty name is known to be `unknown_id`, any other is
/// searched.
pub fn lookup_key(key: String, unknown_id: i64) -> (first: Lookup)
    ensures
        first == lookup_key_spec(key, unknown_id),
{
    if key.as_str().unicode_len() == 0 {
        Lookup::Known(unknown_id)
    } else {
        Lookup::Search(key)
    }
}

/// A name as the store keeps it: without the whitespace at its ends.
pub fn normalize(name: &str) -> (key: String)
    ensures
        key@ == trimmed(name@),
{
    trim(name)
}

/// Starts a find-or-create of an artist. A blank name is the unknown artist;
/// any other is searched, without regard to case, under its trimmed form.
pub fn find_or_create_artist(name: &str) -> (first: Lookup)
    ensures
        lookup_spec(name@, UNKNOWN_ARTIST_ID, first),
{
    lookup_key(trim(name), UNKNOWN_ARTIST_ID)
}

/// Starts a find-or-create of an album. A blank title is the unknown album;
/// any other is searched, together with its artist, under its trimmed form.
pub fn find_or_create_album(title: &str) -> (first: Lookup)
    ensures
        lookup_spec(title@, UNKNOWN_ALBUM_ID, first),
{
    lookup_key(trim(title), UNKNOWN_ALBUM_ID)
}

/// Ends a find-or-create: what the store found is the answer, and only a
/// name that it did not find is created. So a second find-or-create of a
/// name creates nothing.
pub fn settle(found: Option<i64>) -> (second: Settlement)
    ensures
        second == match found {
            Some(id) => Settlement::Found(id),
            None => Settlement::Create,
        },
{
    match found {
        Some(id) => Settlement::Found(id),
        None => Settlement::Create,
    }
}

/// The mark of a duplicate: the existing track's id, negated.
pub fn duplicate_marker(existing_id: i64) -> (marker: i64)
    requires
        existing_id > i64::MIN,
    ensures
        marker == -existing_id,
{
    -existing_id
}

/// Decides whether a track enters the catalog, given the id under which the
/// store already holds its file, if it does.
pub fn add_track(existing: Option<i64>) -> (admission: Admission)
    requires
        existing != Some(i64::MIN),
    ensures
        admission == match existing {
            Some(id) => Admission::Duplicate((-id) as i64),
            None => Admission::Insert,
        },
{
    match existing {
        Some(id) => Admission::Duplicate(duplicate_marker(id)),
        None => Admission::Insert,
    }
}

/// What a search of a table finds: the id held under the key, if any. A
/// table is the store as contracts see it, from normalized names to ids.
pub open spec fn found_in(table: Map<Seq<char>, i64>, key: Seq<char>) -> Option<i64> {
    if table.contains_key(key) {
        Some(table[key])
    } else {
        None
    }
}

/// A whole find-or-create over a table: the first step, the search where one
/// is needed, and the second step, in which a name that was not found is
/// created under the id `fresh`. Gives the table afterwards and the id.
pub open spec fn find_or_create_spec(
    table: Map<Seq<char>, i64>,
    name: Seq<char>,
    unknown_id: i64,
    fresh: i64,
) -> (Map<Seq<char>, i64>, i64) {
    if is_blank_spec(name) {
        (table, unknown_id)
    } else {
        match found_in(table, trimmed(name)) {
            Some(id) => (table, id),
            None => (table.insert(trimmed(name), fresh), fresh),
        }
    }
}

/// Find-or-create is idempotent: done again for the same name, it gives the
/// same id and leaves the table as the first time left it.
pub proof fn lemma_find_or_create_is_idempotent(
    table: Map<Seq<char>, i64>,
    name: Seq<char>,
    unknown_id: i64,
    fresh: i64,
    later: i64,
)
    ensures
        ({
            let (held, id) = find_or_create_spec(table, name, unknown_id, fresh);
            find_or_create_spec(held, name, unknown_id, later) == (held, id)
        }),
{
}

} // verus!
