//! Records from the stream and the store commands that they become.

use vstd::prelude::*;

use crate::text::{decimal, decode_lossy, lossy_utf8, signed_decimal, utf8};

verus! {

/// One record of the stream: an optional key, a value and the timestamp the stream gave it.
#[derive(Clone, Debug)]
pub struct Record {
    pub key: Option<Vec<u8>>,
    pub value: Vec<u8>,
    pub timestamp: i64,
}

impl Record {
    pub fn new(key: Option<Vec<u8>>, value: Vec<u8>, timestamp: i64) -> (r: Record)
        ensures
            key_bytes(&r) == key_bytes_of(key),
            r.value@ == value@,
            r.timestamp == timestamp,
    {
        Record { key, value, timestamp }
    }
}

/// The bytes of an optional key.
pub open spec fn key_bytes_of(key: Option<Vec<u8>>) -> Option<Seq<u8>> {
    match key {
        Some(k) => Some(k@),
        None => None,
    }
}

/// The bytes of a record's key, if it has one.
pub open spec fn key_bytes(r: &Record) -> Option<Seq<u8>> {
    key_bytes_of(r.key)
}

/// How a value is written: as an opaque string, or as the root of a JSON document.
#[derive(Clone, Copy, Debug, PartialEq, Eq, Structural)]
pub enum WriteMode {
    PlainOverwrite,
    JsonDocument,
}

/// The mode that a mode flag selects: plain overwrites for `Some(true)` alone.
pub open spec fn mode_of(to_hash: Option<bool>) -> WriteMode {
    if to_hash == Some(true) {
        WriteMode::PlainOverwrite
    } else {
        WriteMode::JsonDocument
    }
}

/// The mode that a mode flag selects.
pub fn select_mode(to_hash: Option<bool>) -> (r: WriteMode)
    ensures
        r == mode_of(to_hash),
        r == WriteMode::PlainOverwrite <==> to_hash == Some(true),
{
    match to_hash {
        Some(true) => WriteMode::PlainOverwrite,
        _ => WriteMode::JsonDocument,
    }
}

/// What a record is keyed by: its key decoded lossily, or else its timestamp in decimal.
pub open spec fn key_source(key: Option<Seq<u8>>, timestamp: int) -> Seq<char> {
    match key {
        Some(k) => lossy_utf8(k),
        None => decimal(timestamp),
    }
}

/// The store key of a record: the prefix, a colon, and what the record is keyed by.
/// The colon stands there also where the prefix is empty.
pub open spec fn store_key(prefix: Seq<char>, key: Option<Seq<u8>>, timestamp: int) -> Seq<char> {
    prefix + seq![':'] + key_source(key, timestamp)
}

/// A command in the model: its mode, the store key and the value written.
pub type CommandModel = (WriteMode, Seq<char>, Seq<char>);

/// The command that a record becomes under a prefix and a mode flag.
pub open spec fn record_command(
    prefix: Seq<char>,
    to_hash: Option<bool>,
    key: Option<Seq<u8>>,
    value: Seq<u8>,
    timestamp: int,
) -> CommandModel {
    (mode_of(to_hash), store_key(prefix, key, timestamp), lossy_utf8(value))
}

/// The store key of `record` under `prefix`.
pub fn derive_store_key(prefix: &str, record: &Record) -> (r: String)
    ensures
        r@ == store_key(prefix@, key_bytes(record), record.timestamp as int),
        forall|k: Seq<char>|
            #[trigger] utf8(k) == key_bytes(record)->0 && key_bytes(record) is Some
                ==> r@ == prefix@ + seq![':'] + k,
        key_bytes(record) is None ==> r@ == prefix@ + seq![':'] + decimal(record.timestamp as int),
{
    let source = match &record.key {
        Some(k) => decode_lossy(k.as_slice()),
        None => signed_decimal(record.timestamp),
    };
    proof { reveal_strlit(":"); }
    let with_colon = String::from_str(prefix).concat(":");
    let r = with_colon.concat(source.as_str());
    r
}

/// A write to the store: `SET key value`, or `JSON.SET key $ value` for a document.
#[derive(Clone, Debug)]
pub struct StoreCommand {
    pub mode: WriteMode,
    pub key: String,
    pub value: String,
}

impl View for StoreCommand {
    type V = CommandModel;

    open spec fn view(&self) -> CommandModel {
        (self.mode, self.key@, self.value@)
    }
}

/// The words of a command as the store receives them.
pub open spec fn command_words(c: CommandModel) -> Seq<Seq<char>> {
    match c.0 {
        WriteMode::PlainOverwrite => seq!["SET"@, c.1, c.2],
        WriteMode::JsonDocument => seq!["JSON.SET"@, c.1, "$"@, c.2],
    }
}

/// The words joined with single spaces.
pub open spec fn joined(words: Seq<Seq<char>>) -> Seq<char>
    decreases words.len(),
{
    if words.len() == 0 {
        Seq::empty()
    } else if words.len() == 1 {
        words[0]
    } else {
        joined(words.drop_last()) + seq![' '] + words.last()
    }
}

impl StoreCommand {
    /// The command that `record` becomes under `prefix` and the mode flag `to_hash`.
    pub fn for_record(prefix: &str, to_hash: Option<bool>, record: &Record) -> (r: StoreCommand)
        ensures
            r@ == record_command(
                prefix@,
                to_hash,
                key_bytes(record),
                record.value@,
                record.timestamp as int,
            ),
    {
        let key = derive_store_key(prefix, record);
        let value = decode_lossy(record.value.as_slice());
        StoreCommand { mode: select_mode(to_hash), key, value }
    }

    /// The name of the command.
    pub fn name(&self) -> (r: &'static str)
        ensures
            r@ == command_words(self@)[0],
    {
        match self.mode {
            WriteMode::PlainOverwrite => "SET",
            WriteMode::JsonDocument => "JSON.SET",
        }
    }

    /// The words of the command, its name first.
    pub fn words(&self) -> (r: Vec<String>)
        ensures
            r@.map_values(|w: String| w@) == command_words(self@),
    {
        let mut r: Vec<String> = Vec::new();
        r.push(String::from_str(self.name()));
        r.push(self.key.clone());
        if self.mode == WriteMode::JsonDocument {
            r.push(String::from_str("$"));
        }
        r.push(self.value.clone());
        assert(r@.map_values(|w: String| w@) =~= command_words(self@));
        r
    }

    /// The command as one line of text, its words separated by single spaces.
    pub fn to_text(&self) -> (r: String)
        ensures
            r@ == joined(command_words(self@)),
    {
        let words = self.words();
        proof {
            let ws = command_words(self@);
            assert(words@.map_values(|w: String| w@).len() == words@.len());
            assert(words@.map_values(|w: String| w@)[0] == words@[0]@);
            assert(ws.take(1) =~= seq![ws[0]]);
        }
        let mut r = words[0].clone();
        let mut i: usize = 1;
        while i < words.len()
            invariant
                1 <= i <= words.len(),
                words@.map_values(|w: String| w@) == command_words(self@),
                r@ == joined(command_words(self@).take(i as int)),
            decreases words.len() - i,
        {
            proof { reveal_strlit(" "); }
            r = r.concat(" ");
            r = r.concat(words[i].as_str());
            proof {
                let ws = command_words(self@);
                assert(words@.map_values(|w: String| w@)[i as int] == words@[i as int]@);
                assert(ws.take(i + 1).drop_last() =~= ws.take(i as int));
            }
            i = i + 1;
        }
        proof {
            assert(command_words(self@).take(i as int) =~= command_words(self@));
        }
        r
    }
}

} // verus!
