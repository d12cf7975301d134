//! What the store holds after a run of commands, and the laws of writing to it.

use vstd::prelude::*;

use crate::command::{mode_of, record_command, store_key, CommandModel, WriteMode};
use crate::text::lossy_utf8;

verus! {

/// The store as a map from key to what is written there: how, and the value.
pub type StoreModel = Map<Seq<char>, (WriteMode, Seq<char>)>;

/// The store after one command: the whole entry under its key is replaced.
pub open spec fn apply_command(store: StoreModel, c: CommandModel) -> StoreModel {
    store.insert(c.1, (c.0, c.2))
}

/// Two records with the same store key: after both are written the store holds
/// what the second one alone leaves, so the second overwrites the first.
pub proof fn lemma_same_key_overwrites(
    store: StoreModel,
    prefix: Seq<char>,
    to_hash: Option<bool>,
    key1: Option<Seq<u8>>,
    value1: Seq<u8>,
    timestamp1: int,
    key2: Option<Seq<u8>>,
    value2: Seq<u8>,
    timestamp2: int,
)
    requires
        store_key(prefix, key1, timestamp1) == store_key(prefix, key2, timestamp2),
    ensures
        apply_command(
            apply_command(store, record_command(prefix, to_hash, key1, value1, timestamp1)),
            record_command(prefix, to_hash, key2, value2, timestamp2),
        ) == apply_command(store, record_command(prefix, to_hash, key2, value2, timestamp2)),
        apply_command(
            apply_command(store, record_command(prefix, to_hash, key1, value1, timestamp1)),
            record_command(prefix, to_hash, key2, value2, timestamp2),
        )[store_key(prefix, key2, timestamp2)] == (mode_of(to_hash), lossy_utf8(value2)),
{
    let c1 = record_command(prefix, to_hash, key1, value1, timestamp1);
    let c2 = record_command(prefix, to_hash, key2, value2, timestamp2);
    assert(apply_command(apply_command(store, c1), c2) =~= apply_command(store, c2));
}

/// Sending a record again, with the same key and value, changes nothing: the
/// store after the second write is the store after the first. A record without a
/// key is keyed by its timestamp, so there the timestamp must be the same too.
pub proof fn lemma_resend_is_idempotent(
    store: StoreModel,
    prefix: Seq<char>,
    to_hash: Option<bool>,
    key: Option<Seq<u8>>,
    value: Seq<u8>,
    timestamp1: int,
    timestamp2: int,
)
    requires
        key is Some || timestamp1 == timestamp2,
    ensures
        apply_command(
            apply_command(store, record_command(prefix, to_hash, key, value, timestamp1)),
            record_command(prefix, to_hash, key, value, timestamp2),
        ) == apply_command(store, record_command(prefix, to_hash, key, value, timestamp1)),
{
    let c1 = record_command(prefix, to_hash, key, value, timestamp1);
    let c2 = record_command(prefix, to_hash, key, value, timestamp2);
    assert(c1 == c2);
    assert(apply_command(apply_command(store, c1), c2) =~= apply_command(store, c1));
}

/// The mode of every command is the one that the flag selects, whatever the record:
/// plain overwrites for `Some(true)`, JSON documents for anything else.
pub proof fn lemma_mode_is_the_sinks(
    prefix: Seq<char>,
    to_hash: Option<bool>,
    key: Option<Seq<u8>>,
    value: Seq<u8>,
    timestamp: int,
)
    ensures
        record_command(prefix, to_hash, key, value, timestamp).0 == mode_of(to_hash),
        to_hash == Some(true) ==> record_command(prefix, to_hash, key, value, timestamp).0
            == WriteMode::PlainOverwrite,
        to_hash != Some(true) ==> record_command(prefix, to_hash, key, value, timestamp).0
            == WriteMode::JsonDocument,
{
}

} // verus!
