use vstd::prelude::*;
use vstd::string::StringExecFns;
use vstd::utf8::encode_utf8;
use crate::auth::{AuthError, base64_of, hmac_sha256_of, verify};
use crate::events::{ExtractedAttributes, ParseError, TodoistEvent};
use crate::message::{EncodedMessage, message_base64_decoded, message_base64_of};
use crate::parse::{parse_event, spec_parse_ok, spec_parsed_event};

verus! {

/// A fatal failure of one request's handling: nothing is published.
#[derive(Clone, Copy, PartialEq, Eq, Debug)]
pub enum PipelineError {
    Auth(AuthError),
    Parse(ParseError),
    CatalogFetch,
    Publish,
}

/// The steps before any catalog traffic: authenticate the raw body against
/// the signature header, then decode the envelope. An absent header fails
/// with `MissingSignature`, a mismatched one with `InvalidSignature`, and in
/// both cases no event comes out, so nothing is ever resolved or published
/// for an unauthenticated request. An authenticated body yields exactly its
/// parsed envelope, or `MalformedJson` when it is not a well-formed one.
pub fn prepare(body: &[u8], signature: Option<&str>, shared_secret: &str) -> (r: Result<
    TodoistEvent,
    PipelineError,
>)
    ensures
        signature is None ==> r == Err::<TodoistEvent, PipelineError>(
            PipelineError::Auth(AuthError::MissingSignature),
        ),
        r is Ok ==> (signature matches Some(s) && s@ == base64_of(
            hmac_sha256_of(encode_utf8(shared_secret@), body@),
        )),
        (signature matches Some(s) && s@ == base64_of(
            hmac_sha256_of(encode_utf8(shared_secret@), body@),
        )) ==> match r {
            Ok(ev) => spec_parse_ok(body@) && spec_parsed_event(body@, ev),
            Err(e) => e == PipelineError::Parse(ParseError::MalformedJson) && !spec_parse_ok(
                body@,
            ),
        },
        (signature matches Some(s) && s@ != base64_of(
            hmac_sha256_of(encode_utf8(shared_secret@), body@),
        )) ==> r == Err::<TodoistEvent, PipelineError>(
            PipelineError::Auth(AuthError::InvalidSignature),
        ),
        r matches Err(e) ==> match e {
            PipelineError::Auth(_) => true,
            PipelineError::Parse(pe) => pe == ParseError::MalformedJson,
            _ => false,
        },
{
    match verify(body, signature, shared_secret) {
        Ok(()) => {},
        Err(e) => { return Err(PipelineError::Auth(e)) },
    };
    match parse_event(body) {
        Ok(ev) => Ok(ev),
        Err(e) => Err(PipelineError::Parse(e)),
    }
}

/// Assembles the outbound message for one resolved event: the payload is the
/// original raw body verbatim, the attribute map holds exactly the five keys
/// `event_name`, `project_name`, `parent_name`, `parent_parent_name` and
/// `section_name`, in that order, and the ordering key is the acted-upon
/// entity's id.
pub fn build_message(body: &[u8], event_name: &String, attr: &ExtractedAttributes) -> (r:
    EncodedMessage)
    ensures
        message_base64_decoded(r.data_view()) == Some(body@),
        r.data_view() == message_base64_of(body@),
        r.ordering_key_view() == Some(attr.id@),
        r.attributes_view() matches Some(m) && m.len() == 5 && (m[0].0@ == "event_name"@ && m[0].1@
            == event_name@) && (m[1].0@ == "project_name"@ && m[1].1@ == attr.project_name@) && (
        m[2].0@ == "parent_name"@ && m[2].1@ == attr.parent_name@) && (m[3].0@
            == "parent_parent_name"@ && m[3].1@ == attr.parent_parent_name@) && (m[4].0@
            == "section_name"@ && m[4].1@ == attr.section_name@),
{
    let mut attributes: Vec<(String, String)> = Vec::new();
    attributes.push((String::from_str("event_name"), event_name.clone()));
    attributes.push((String::from_str("project_name"), attr.project_name.clone()));
    attributes.push((String::from_str("parent_name"), attr.parent_name.clone()));
    attributes.push((String::from_str("parent_parent_name"), attr.parent_parent_name.clone()));
    attributes.push((String::from_str("section_name"), attr.section_name.clone()));
    EncodedMessage::new_binary(body, Some(attributes), Some(attr.id.clone()))
}

} // verus!
