use vstd::prelude::*;
use crate::events::{EventData, EventDataView, FieldClass, FieldValue, ParseError, TodoistEvent};

verus! {

#[verifier::external_type_specification]
#[verifier::external_body]
pub struct ExJsonValue(serde_json::Value);

#[verifier::external_type_specification]
#[verifier::external_body]
pub struct ExJsonError(serde_json::Error);

/// The JSON document the decoder reads from `body`; none when `body` is not
/// one well-formed JSON document.
pub uninterp spec fn json_doc_of(body: Seq<u8>) -> Option<serde_json::Value>;

/// The member of `doc` under `key`; none when `doc` is not an object or has
/// no such member.
pub uninterp spec fn json_member_of(doc: serde_json::Value, key: Seq<char>) -> Option<
    serde_json::Value,
>;

/// The content of `v` as a JSON string; none when `v` is not one.
pub uninterp spec fn json_text_of(v: serde_json::Value) -> Option<Seq<char>>;

/// Whether `v` is JSON null.
pub uninterp spec fn json_is_null_of(v: serde_json::Value) -> bool;

/// Relies on serde_json::from_slice: decodes the body as one JSON document,
/// a function of the bytes alone.
#[verifier::external_body]
fn json_parse(body: &[u8]) -> (r: Result<serde_json::Value, serde_json::Error>)
    ensures
        match r {
            Ok(v) => json_doc_of(body@) == Some(v),
            Err(_) => json_doc_of(body@) is None,
        },
{
    serde_json::from_slice(body)
}

/// Relies on serde_json::Value::get: the member of an object under a key, a
/// function of the value and the key alone.
#[verifier::external_body]
fn json_get<'a>(v: &'a serde_json::Value, key: &str) -> (r: Option<&'a serde_json::Value>)
    ensures
        match r {
            Some(m) => json_member_of(*v, key@) == Some(*m),
            None => json_member_of(*v, key@) is None,
        },
{
    v.get(key)
}

/// Relies on serde_json::Value::as_str: the content of a JSON string, a
/// function of the value alone.
#[verifier::external_body]
fn json_as_string(v: &serde_json::Value) -> (r: Option<String>)
    ensures
        match r {
            Some(s) => json_text_of(*v) == Some(s@),
            None => json_text_of(*v) is None,
        },
{
    match v.as_str() {
        Some(s) => Some(s.to_string()),
        None => None,
    }
}

/// Relies on serde_json::Value::is_null: whether the value is JSON null, a
/// function of the value alone.
#[verifier::external_body]
fn json_is_null(v: &serde_json::Value) -> (r: bool)
    ensures
        r == json_is_null_of(*v),
{
    v.is_null()
}

/// The member of `doc` under `key` read as a string, when `doc` has that
/// member and it is one.
pub open spec fn spec_string_member(doc: serde_json::Value, key: Seq<char>) -> Option<Seq<char>> {
    match json_member_of(doc, key) {
        Option::None => None,
        Option::Some(v) => json_text_of(v),
    }
}

/// The classification of the member of `data` under `key`: absent, null, a
/// string, or any other JSON value.
pub open spec fn spec_classify(data: serde_json::Value, key: Seq<char>) -> FieldClass {
    match json_member_of(data, key) {
        Option::None => FieldClass::Missing,
        Option::Some(v) => if json_is_null_of(v) {
            FieldClass::Null
        } else {
            match json_text_of(v) {
                Option::Some(s) => FieldClass::Text(s),
                Option::None => FieldClass::Other,
            }
        },
    }
}

/// Every payload field a dispatch branch may later read, classified.
pub open spec fn spec_payload_fields(data: serde_json::Value) -> EventDataView {
    EventDataView {
        id: spec_classify(data, "id"@),
        name: spec_classify(data, "name"@),
        parent_id: spec_classify(data, "parent_id"@),
        project_id: spec_classify(data, "project_id"@),
        section_id: spec_classify(data, "section_id"@),
        v2_id: spec_classify(data, "v2_id"@),
        v2_parent_id: spec_classify(data, "v2_parent_id"@),
    }
}

/// Whether `doc` is a well-formed envelope: `user_id`, `version` and
/// `event_name` are string members, and `initiator` and `event_data` are
/// present.
pub open spec fn spec_envelope_ok(doc: serde_json::Value) -> bool {
    &&& spec_string_member(doc, "user_id"@) is Some
    &&& spec_string_member(doc, "version"@) is Some
    &&& spec_string_member(doc, "event_name"@) is Some
    &&& json_member_of(doc, "initiator"@) is Some
    &&& json_member_of(doc, "event_data"@) is Some
}

/// Whether `body` decodes to a well-formed envelope.
pub open spec fn spec_parse_ok(body: Seq<u8>) -> bool {
    json_doc_of(body) matches Some(doc) && spec_envelope_ok(doc)
}

/// What the envelope parsed from `body` holds: each typed field equals the
/// corresponding member of the decoded document, and the payload fields are
/// the classified members of its `event_data` member.
pub open spec fn spec_parsed_event(body: Seq<u8>, ev: TodoistEvent) -> bool {
    json_doc_of(body) matches Some(doc) && {
        &&& spec_string_member(doc, "user_id"@) == Some(ev.user_id@)
        &&& spec_string_member(doc, "version"@) == Some(ev.version@)
        &&& spec_string_member(doc, "event_name"@) == Some(ev.event_name@)
        &&& (json_member_of(doc, "event_data"@) matches Some(data) && ev.event_data@
            == spec_payload_fields(data))
    }
}

/// A member of the envelope that must be a JSON string.
fn string_field(doc: &serde_json::Value, key: &str) -> (r: Option<String>)
    ensures
        match r {
            Some(s) => spec_string_member(*doc, key@) == Some(s@),
            None => spec_string_member(*doc, key@) is None,
        },
{
    match json_get(doc, key) {
        None => None,
        Some(v) => json_as_string(v),
    }
}

/// One payload field, classified.
fn payload_field(data: &serde_json::Value, key: &str) -> (r: FieldValue)
    ensures
        r@ == spec_classify(*data, key@),
{
    match json_get(data, key) {
        None => FieldValue::Missing,
        Some(v) => {
            if json_is_null(v) {
                FieldValue::Null
            } else {
                match json_as_string(v) {
                    Some(s) => FieldValue::Text(s),
                    None => FieldValue::Other,
                }
            }
        },
    }
}

/// Every payload field a dispatch branch may later read, classified.
fn payload_fields(data: &serde_json::Value) -> (r: EventData)
    ensures
        r@ == spec_payload_fields(*data),
{
    EventData {
        id: payload_field(data, "id"),
        name: payload_field(data, "name"),
        parent_id: payload_field(data, "parent_id"),
        project_id: payload_field(data, "project_id"),
        section_id: payload_field(data, "section_id"),
        v2_id: payload_field(data, "v2_id"),
        v2_parent_id: payload_field(data, "v2_parent_id"),
    }
}

/// Decodes the raw body into the typed envelope: succeeds exactly when the
/// body is one JSON document whose `user_id`, `version` and `event_name`
/// members are strings and whose `initiator` and `event_data` members are
/// present, and then returns those members, the payload fields classified.
/// The shape of `event_data` is not fixed here: each dispatch branch re-reads
/// it and reports `UnknownEventShape` itself.
pub fn parse_event(body: &[u8]) -> (r: Result<TodoistEvent, ParseError>)
    ensures
        match r {
            Ok(ev) => spec_parse_ok(body@) && spec_parsed_event(body@, ev),
            Err(e) => e == ParseError::MalformedJson && !spec_parse_ok(body@),
        },
{
    let doc = match json_parse(body) {
        Ok(v) => v,
        Err(_) => { return Err(ParseError::MalformedJson) },
    };
    let user_id = match string_field(&doc, "user_id") {
        Some(s) => s,
        None => { return Err(ParseError::MalformedJson) },
    };
    let version = match string_field(&doc, "version") {
        Some(s) => s,
        None => { return Err(ParseError::MalformedJson) },
    };
    let event_name = match string_field(&doc, "event_name") {
        Some(s) => s,
        None => { return Err(ParseError::MalformedJson) },
    };
    match json_get(&doc, "initiator") {
        Some(_) => {},
        None => { return Err(ParseError::MalformedJson) },
    };
    let event_data = match json_get(&doc, "event_data") {
        Some(v) => payload_fields(v),
        None => { return Err(ParseError::MalformedJson) },
    };
    Ok(TodoistEvent { user_id, version, event_name, event_data })
}

} // verus!
