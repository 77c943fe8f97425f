//! What a client of a vector index decides apart from talking to the
//! index: the names of the collections, the layout of a stored payload, and
//! what a filter condition matches on.
//!
//! A stored payload is a list of fields. The text, the tier, the
//! timestamp, the agent and the session stand under their own keys; every
//! key of the metadata stands beside them, its value as JSON text.

use vstd::prelude::*;
use crate::error::{ContextError, VectorDbError};
use crate::ids::{parse_uuid, uuid_value};
use crate::json::{
    integer_value, json_integer, json_parse, json_string_text, json_text, json_text_of,
    parsed_json, string_text,
};
use crate::metadata::{with_entry, Metadata, MetadataEntry};
use crate::text::same_text;
use crate::vector_db::models::{ContextLevel, Payload};

verus! {

/// The value of a stored field, as the index holds it.
#[derive(Debug, Clone)]
pub enum StoredValue {
    Text(String),
    Integer(i64),
    /// A value of another kind, of which the core reads nothing.
    Other,
}

/// A field of a stored payload.
#[derive(Debug, Clone)]
pub struct StoredField {
    pub key: String,
    pub value: StoredValue,
}

/// The name of a tier in the name of its collection.
pub open spec fn level_key(level: ContextLevel) -> Seq<char> {
    match level {
        ContextLevel::Immediate => "immediate"@,
        ContextLevel::ShortTerm => "shortterm"@,
        ContextLevel::LongTerm => "longterm"@,
    }
}

/// The tier that a name stands for.
pub open spec fn level_named(name: Seq<char>) -> Option<ContextLevel> {
    if name == "Immediate"@ {
        Some(ContextLevel::Immediate)
    } else if name == "ShortTerm"@ {
        Some(ContextLevel::ShortTerm)
    } else if name == "LongTerm"@ {
        Some(ContextLevel::LongTerm)
    } else {
        None
    }
}

/// Whether a key is one of the payload's own.
pub open spec fn reserved(key: Seq<char>) -> bool {
    key == "text"@ || key == "level"@ || key == "timestamp"@ || key == "agent_id"@ || key
        == "session_id"@
}

/// The value of the first field under `key`.
pub open spec fn stored(fields: Seq<StoredField>, key: Seq<char>) -> Option<StoredValue>
    decreases fields.len(),
{
    if fields.len() == 0 {
        None
    } else if fields[0].key@ == key {
        Some(fields[0].value)
    } else {
        stored(fields.drop_first(), key)
    }
}

/// The text of the first field under `key`, where it is a text.
pub open spec fn stored_text(fields: Seq<StoredField>, key: Seq<char>) -> Option<String> {
    match stored(fields, key) {
        Some(StoredValue::Text(text)) => Some(text),
        _ => None,
    }
}

/// The metadata that the fields hold: every field that is not one of the
/// payload's own and whose value is JSON text, under its key, a later field
/// in the place of an earlier one of the same key.
pub open spec fn stored_metadata(fields: Seq<StoredField>) -> Seq<MetadataEntry>
    decreases fields.len(),
{
    if fields.len() == 0 {
        Seq::empty()
    } else {
        let before = stored_metadata(fields.drop_last());
        let field = fields.last();
        if reserved(field.key@) {
            before
        } else {
            match field.value {
                StoredValue::Text(text) => match parsed_json(text@) {
                    Some(value) => with_entry(before, field.key, value),
                    None => before,
                },
                _ => before,
            }
        }
    }
}

/// `fields` are what the entries of a metadata are stored as: one field
/// for every entry whose key is not one of the payload's own and whose value
/// has a JSON text, in the order of the entries, under the key of the entry
/// and with that text.
pub open spec fn stores_metadata(entries: Seq<MetadataEntry>, fields: Seq<StoredField>) -> bool
    decreases entries.len(),
{
    if entries.len() == 0 {
        fields.len() == 0
    } else {
        let entry = entries.last();
        if reserved(entry.key@) || json_text_of(entry.value) is None {
            stores_metadata(entries.drop_last(), fields)
        } else {
            &&& fields.len() > 0
            &&& fields.last().key@ == entry.key@
            &&& fields.last().value matches StoredValue::Text(text) && Some(text@) == json_text_of(
                entry.value,
            )
            &&& stores_metadata(entries.drop_last(), fields.drop_last())
        }
    }
}

/// Whether `r` is the failure of a search with the message `message`.
pub open spec fn search_failure<T>(r: Result<T, ContextError>, message: Seq<char>) -> bool {
    r matches Err(ContextError::VectorDb(VectorDbError::SearchError(text))) && text@ == message
}

/// `r` is what the parsing of `fields` gives: the payload that they hold,
/// or the failure of the first of text, tier, timestamp and agent that is
/// missing or of another kind.
pub open spec fn parsed(fields: Seq<StoredField>, r: Result<Payload, ContextError>) -> bool {
    if stored_text(fields, "text"@) is None {
        search_failure(r, "Missing text field"@)
    } else if stored_text(fields, "level"@) is None {
        search_failure(r, "Missing level field"@)
    } else if level_named(stored_text(fields, "level"@)->0@) is None {
        search_failure(r, "Invalid level"@)
    } else if !(stored(fields, "timestamp"@) matches Some(StoredValue::Integer(_))) {
        search_failure(r, "Missing timestamp field"@)
    } else if stored_text(fields, "agent_id"@) is None {
        search_failure(r, "Missing agent_id field"@)
    } else {
        r matches Ok(payload) && payload.text == stored_text(fields, "text"@)->0 && Some(
            payload.level,
        ) == level_named(stored_text(fields, "level"@)->0@) && stored(fields, "timestamp"@)
            == Some(StoredValue::Integer(payload.timestamp)) && payload.agent_id == stored_text(
            fields,
            "agent_id"@,
        )->0 && payload.session_id == stored_text(fields, "session_id"@)
            && payload.metadata.entries() == stored_metadata(fields)
    }
}

/// What a condition matches a payload on.
#[derive(Debug, Clone)]
pub enum MatchTarget {
    Text(String),
    Integer(i64),
}

/// What a condition with the value `value` matches on: the text of a JSON
/// string, else the number of a JSON integer; a value of another kind
/// matches on nothing, and its condition is left out.
pub open spec fn target_of(value: serde_json::Value, target: Option<MatchTarget>) -> bool {
    match string_text(value) {
        Some(text) => target matches Some(MatchTarget::Text(found)) && found@ == text,
        None => match integer_value(value) {
            Some(number) => target matches Some(MatchTarget::Integer(found)) && found == number,
            None => target is None,
        },
    }
}

/// The name of the collection of a tier under a prefix.
pub fn collection_name(prefix: &str, level: ContextLevel) -> (name: String)
    ensures
        name@ == prefix@ + "_"@ + level_key(level),
{
    let tier = match level {
        ContextLevel::Immediate => "immediate",
        ContextLevel::ShortTerm => "shortterm",
        ContextLevel::LongTerm => "longterm",
    };
    prefix.to_owned().concat("_").concat(tier)
}

/// The tier that a name stands for.
pub fn parse_level(name: &str) -> (level: Option<ContextLevel>)
    ensures
        level == level_named(name@),
{
    if same_text(name, "Immediate") {
        Some(ContextLevel::Immediate)
    } else if same_text(name, "ShortTerm") {
        Some(ContextLevel::ShortTerm)
    } else if same_text(name, "LongTerm") {
        Some(ContextLevel::LongTerm)
    } else {
        None
    }
}

/// Whether a key is one of the payload's own.
pub fn is_reserved(key: &str) -> (own: bool)
    ensures
        own == reserved(key@),
{
    same_text(key, "text") || same_text(key, "level") || same_text(key, "timestamp") || same_text(
        key,
        "agent_id",
    ) || same_text(key, "session_id")
}

fn find<'a>(fields: &'a Vec<StoredField>, key: &str) -> (found: Option<&'a StoredValue>)
    ensures
        match found {
            Some(value) => stored(fields@, key@) == Some(*value),
            None => stored(fields@, key@) is None,
        },
{
    let mut i: usize = 0;
    proof {
        assert(fields@.skip(0) =~= fields@);
    }
    while i < fields.len()
        invariant
            i <= fields@.len(),
            stored(fields@, key@) == stored(fields@.skip(i as int), key@),
        decreases fields.len() - i,
    {
        proof {
            assert(fields@.skip(i as int)[0] == fields@[i as int]);
            assert(fields@.skip(i as int).drop_first() =~= fields@.skip(i + 1));
        }
        if same_text(fields[i].key.as_str(), key) {
            return Some(&fields[i].value);
        }
        i = i + 1;
    }
    None
}

fn find_text(fields: &Vec<StoredField>, key: &str) -> (found: Option<String>)
    ensures
        found == stored_text(fields@, key@),
{
    match find(fields, key) {
        Some(StoredValue::Text(text)) => Some(text.clone()),
        _ => None,
    }
}

fn search_error<T>(message: &str) -> (r: Result<T, ContextError>)
    ensures
        search_failure(r, message@),
{
    Err(ContextError::VectorDb(VectorDbError::SearchError(message.to_owned())))
}

/// The metadata that stored fields hold.
pub fn metadata_of_fields(fields: &Vec<StoredField>) -> (metadata: Metadata)
    ensures
        metadata.entries() == stored_metadata(fields@),
{
    let mut metadata = Metadata::new();
    let mut i: usize = 0;
    while i < fields.len()
        invariant
            i <= fields@.len(),
            metadata.entries() == stored_metadata(fields@.take(i as int)),
        decreases fields.len() - i,
    {
        proof {
            let upto = fields@.take(i + 1);
            assert(upto.drop_last() =~= fields@.take(i as int));
            assert(upto.last() == fields@[i as int]);
        }
        let field = &fields[i];
        if !is_reserved(field.key.as_str()) {
            match &field.value {
                StoredValue::Text(text) => {
                    match json_parse(text.as_str()) {
                        Some(value) => {
                            metadata.insert(field.key.clone(), value);
                        },
                        None => {},
                    }
                },
                _ => {},
            }
        }
        i = i + 1;
    }
    proof {
        assert(fields@.take(fields@.len() as int) =~= fields@);
    }
    metadata
}

/// The payload that stored fields hold.
pub fn parse_stored_fields(fields: &Vec<StoredField>) -> (r: Result<Payload, ContextError>)
    ensures
        parsed(fields@, r),
{
    let text = match find_text(fields, "text") {
        Some(text) => text,
        None => {
            return search_error("Missing text field");
        },
    };
    let level_name = match find_text(fields, "level") {
        Some(name) => name,
        None => {
            return search_error("Missing level field");
        },
    };
    let level = match parse_level(level_name.as_str()) {
        Some(level) => level,
        None => {
            return search_error("Invalid level");
        },
    };
    let timestamp = match find(fields, "timestamp") {
        Some(StoredValue::Integer(timestamp)) => *timestamp,
        _ => {
            return search_error("Missing timestamp field");
        },
    };
    let agent_id = match find_text(fields, "agent_id") {
        Some(agent) => agent,
        None => {
            return search_error("Missing agent_id field");
        },
    };
    let session_id = find_text(fields, "session_id");
    let metadata = metadata_of_fields(fields);
    Ok(Payload { text, level, timestamp, agent_id, session_id, metadata })
}

/// The fields that a payload is stored as: its text, tier, timestamp and
/// agent, its session where it has one, and every entry of its metadata
/// whose key is not one of the payload's own and whose value has a JSON
/// text, as that text.
pub fn to_stored_fields(payload: &Payload) -> (fields: Vec<StoredField>)
    ensures
        stored_text(fields@, "text"@) == Some(payload.text),
        stored_text(fields@, "level"@) matches Some(name) && name@ == payload.level.name(),
        stored(fields@, "timestamp"@) == Some(StoredValue::Integer(payload.timestamp)),
        stored_text(fields@, "agent_id"@) == Some(payload.agent_id),
        stored_text(fields@, "session_id"@) == payload.session_id,
        fields@.len() <= 5 + payload.metadata.entries().len(),
        stores_metadata(
            payload.metadata.entries(),
            fields@.skip(
                if payload.session_id is Some {
                    5
                } else {
                    4
                },
            ),
        ),
{
    let mut fields: Vec<StoredField> = Vec::new();
    fields.push(StoredField { key: "text".to_owned(), value: StoredValue::Text(payload.text.clone()) });
    fields.push(
        StoredField {
            key: "level".to_owned(),
            value: StoredValue::Text(payload.level.as_str().to_owned()),
        },
    );
    fields.push(
        StoredField { key: "timestamp".to_owned(), value: StoredValue::Integer(payload.timestamp) },
    );
    fields.push(
        StoredField {
            key: "agent_id".to_owned(),
            value: StoredValue::Text(payload.agent_id.clone()),
        },
    );
    match &payload.session_id {
        Some(session) => {
            fields.push(
                StoredField {
                    key: "session_id".to_owned(),
                    value: StoredValue::Text(session.clone()),
                },
            );
        },
        None => {},
    }
    let ghost head = fields@;
    proof {
        reveal_strlit("text");
        reveal_strlit("level");
        reveal_strlit("timestamp");
        reveal_strlit("agent_id");
        reveal_strlit("session_id");
        assert(head[0].key@ == "text"@ && head[0].key@.len() == 4);
        assert(head[1].key@ == "level"@ && head[1].key@.len() == 5);
        assert(head[2].key@ == "timestamp"@ && head[2].key@.len() == 9);
        assert(head[3].key@ == "agent_id"@ && head[3].key@.len() == 8);
        lemma_stored_at(head, "text"@, 0);
        lemma_stored_at(head, "level"@, 1);
        lemma_stored_at(head, "timestamp"@, 2);
        lemma_stored_at(head, "agent_id"@, 3);
        if payload.session_id is Some {
            assert(head[4].key@ == "session_id"@ && head[4].key@.len() == 10);
            lemma_stored_at(head, "session_id"@, 4);
        }
    }
    let ghost entries = payload.metadata.entries();
    let mut i: usize = 0;
    proof {
        assert(fields@.skip(head.len() as int) =~= Seq::<StoredField>::empty());
    }
    while i < payload.metadata.len()
        invariant
            i <= payload.metadata.entries().len(),
            entries == payload.metadata.entries(),
            head.len() == if payload.session_id is Some {
                5int
            } else {
                4int
            },
            fields@.len() <= head.len() + i,
            head.is_prefix_of(fields@),
            forall|j: int| head.len() <= j < fields@.len() ==> !reserved((#[trigger] fields@[j]).key@),
            stores_metadata(entries.take(i as int), fields@.skip(head.len() as int)),
        decreases payload.metadata.entries().len() - i,
    {
        let entry = payload.metadata.entry(i);
        let ghost before = fields@;
        proof {
            let upto = entries.take(i + 1);
            assert(upto.drop_last() =~= entries.take(i as int));
            assert(upto.last() == entries[i as int]);
        }
        if !is_reserved(entry.key.as_str()) {
            match json_text(&entry.value) {
                Some(text) => {
                    fields.push(
                        StoredField { key: entry.key.clone(), value: StoredValue::Text(text) },
                    );
                    proof {
                        let tail = fields@.skip(head.len() as int);
                        assert(tail.drop_last() =~= before.skip(head.len() as int));
                        assert(tail.last() == fields@[fields@.len() - 1]);
                    }
                },
                None => {},
            }
        }
        i = i + 1;
    }
    proof {
        assert(entries.take(entries.len() as int) =~= entries);
        lemma_stored_prefix(head, fields@, "text"@);
        lemma_stored_prefix(head, fields@, "level"@);
        lemma_stored_prefix(head, fields@, "timestamp"@);
        lemma_stored_prefix(head, fields@, "agent_id"@);
        if payload.session_id is Some {
            lemma_stored_prefix(head, fields@, "session_id"@);
        } else {
            assert forall|j: int| 0 <= j < fields@.len() implies (#[trigger] fields@[j]).key@
                != "session_id"@ by {
                if j < head.len() {
                    assert(fields@[j] == head[j]);
                }
            }
            lemma_stored_none(fields@, "session_id"@);
        }
    }
    fields
}

/// Under a key that no field has nothing is found.
pub proof fn lemma_stored_none(fields: Seq<StoredField>, key: Seq<char>)
    requires
        forall|i: int| 0 <= i < fields.len() ==> (#[trigger] fields[i]).key@ != key,
    ensures
        stored(fields, key) is None,
    decreases fields.len(),
{
    if fields.len() > 0 {
        let rest = fields.drop_first();
        assert forall|i: int| 0 <= i < rest.len() implies (#[trigger] rest[i]).key@ != key by {
            assert(rest[i] == fields[i + 1]);
        }
        lemma_stored_none(rest, key);
    }
}

/// The first field under a key is found where it stands.
pub proof fn lemma_stored_at(fields: Seq<StoredField>, key: Seq<char>, at: int)
    requires
        0 <= at < fields.len(),
        fields[at].key@ == key,
        forall|i: int| 0 <= i < at ==> (#[trigger] fields[i]).key@ != key,
    ensures
        stored(fields, key) == Some(fields[at].value),
    decreases at,
{
    if at > 0 {
        let rest = fields.drop_first();
        assert forall|i: int| 0 <= i < at - 1 implies (#[trigger] rest[i]).key@ != key by {
            assert(rest[i] == fields[i + 1]);
        }
        lemma_stored_at(rest, key, at - 1);
    }
}

/// What is found under a key among the first fields is found under it
/// among all.
pub proof fn lemma_stored_prefix(head: Seq<StoredField>, fields: Seq<StoredField>, key: Seq<char>)
    requires
        head.is_prefix_of(fields),
        stored(head, key) is Some,
    ensures
        stored(fields, key) == stored(head, key),
    decreases head.len(),
{
    if head.len() > 0 {
        assert(fields[0] == head[0]);
        if head[0].key@ != key {
            assert(head.drop_first().is_prefix_of(fields.drop_first())) by {
                assert(fields.drop_first().subrange(0, head.drop_first().len() as int)
                    =~= head.drop_first());
            }
            lemma_stored_prefix(head.drop_first(), fields.drop_first(), key);
        }
    }
}

/// What a condition with this value matches on.
pub fn match_target(value: &serde_json::Value) -> (target: Option<MatchTarget>)
    ensures
        target_of(*value, target),
{
    match json_string_text(value) {
        Some(text) => Some(MatchTarget::Text(text)),
        None => match json_integer(value) {
            Some(number) => Some(MatchTarget::Integer(number)),
            None => None,
        },
    }
}

/// The id of a point from its text as a UUID.
pub fn parse_point_id(text: &str) -> (r: Result<u128, ContextError>)
    ensures
        match uuid_value(text@) {
            Some(id) => r == Ok::<u128, ContextError>(id),
            None => search_failure(r, "Invalid UUID"@),
        },
{
    match parse_uuid(text) {
        Some(id) => Ok(id),
        None => search_error("Invalid UUID"),
    }
}

} // verus!
