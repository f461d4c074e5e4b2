//! Property-change notifications as the bus client hands them over, and the
//! track identifier that one of them may carry.

use vstd::prelude::*;

verus! {

/// A value of a changed property or of a metadata entry.
#[derive(Debug, PartialEq, Eq)]
pub enum Value {
    /// A string or an object path.
    Text(String),
    /// A mapping from names to values, in the order of the message.
    Dict(Vec<(String, Value)>),
    /// Any value that the supervisor never reads.
    Other,
}

/// One notification that properties of the player have changed.
#[derive(Debug, PartialEq, Eq)]
pub struct PropertyChange {
    /// The interface whose properties changed.
    pub interface: String,
    /// The changed properties with their new values.
    pub changed: Vec<(String, Value)>,
    /// The properties that were invalidated without a new value.
    pub invalidated: Vec<String>,
}

/// The name of the property that holds the metadata of the current track.
pub const METADATA_KEY: &'static str = "Metadata";

/// The name of the metadata entry that holds the track identifier.
pub const TRACK_ID_KEY: &'static str = "mpris:trackid";

/// The characters of `METADATA_KEY`.
pub open spec fn metadata_key() -> Seq<char> {
    METADATA_KEY@
}

/// The characters of `TRACK_ID_KEY`.
pub open spec fn track_id_key() -> Seq<char> {
    TRACK_ID_KEY@
}

/// The value of the first entry named `key`, if there is one.
pub open spec fn lookup(entries: Seq<(String, Value)>, key: Seq<char>) -> Option<Value>
    decreases entries.len(),
{
    if entries.len() == 0 {
        None
    } else if entries[0].0@ == key {
        Some(entries[0].1)
    } else {
        lookup(entries.drop_first(), key)
    }
}

/// Some entry is named `key`.
pub open spec fn has_entry(entries: Seq<(String, Value)>, key: Seq<char>) -> bool {
    exists|i: int| 0 <= i < entries.len() && (#[trigger] entries[i]).0@ == key
}

/// `lookup` finds a value exactly where some entry has the name.
pub proof fn lemma_lookup_finds_existing(entries: Seq<(String, Value)>, key: Seq<char>)
    ensures
        lookup(entries, key) is Some <==> has_entry(entries, key),
    decreases entries.len(),
{
    if entries.len() > 0 {
        let rest = entries.drop_first();
        lemma_lookup_finds_existing(rest, key);
        if entries[0].0@ != key {
            if has_entry(rest, key) {
                let i = choose|i: int| 0 <= i < rest.len() && (#[trigger] rest[i]).0@ == key;
                assert(entries[i + 1] == rest[i]);
            }
            if has_entry(entries, key) {
                let i = choose|i: int| 0 <= i < entries.len() && (#[trigger] entries[i]).0@ == key;
                assert(rest[i - 1] == entries[i]);
            }
        }
    }
}

fn find<'a>(entries: &'a Vec<(String, Value)>, key: &str) -> (found: Option<&'a Value>)
    ensures
        found == match lookup(entries@, key@) {
            Some(value) => Some(&value),
            None => None,
        },
{
    let wanted = key.to_owned();
    let mut i: usize = 0;
    assert(entries@.skip(0) =~= entries@);
    while i < entries.len()
        invariant
            i <= entries.len(),
            wanted@ == key@,
            lookup(entries@, key@) == lookup(entries@.skip(i as int), key@),
        decreases entries.len() - i,
    {
        let ghost rest = entries@.skip(i as int);
        assert(rest[0] == entries@[i as int]);
        assert(rest.drop_first() =~= entries@.skip(i + 1));
        if entries[i].0 == wanted {
            return Some(&entries[i].1);
        }
        i += 1;
    }
    None
}

impl PropertyChange {
    /// The track identifier that the notification carries: the text under
    /// `mpris:trackid` in the mapping under `Metadata`. There is none when
    /// the notification has no `Metadata` entry, when that entry is no
    /// mapping, or when the mapping has no text under `mpris:trackid`.
    pub open spec fn track_identifier(&self) -> Option<Seq<char>> {
        match lookup(self.changed@, metadata_key()) {
            Some(Value::Dict(metadata)) => match lookup(metadata@, track_id_key()) {
                Some(Value::Text(id)) => Some(id@),
                _ => None,
            },
            _ => None,
        }
    }

    /// Extracts the track identifier, if the notification carries one.
    pub fn track_id(&self) -> (id: Option<&String>)
        ensures
            match id {
                Some(text) => self.track_identifier() == Some(text@),
                None => self.track_identifier() is None,
            },
    {
        match find(&self.changed, METADATA_KEY) {
            Some(Value::Dict(metadata)) => match find(metadata, TRACK_ID_KEY) {
                Some(Value::Text(text)) => Some(text),
                _ => None,
            },
            _ => None,
        }
    }
}

} // verus!
