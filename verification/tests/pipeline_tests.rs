use event_ingestor::auth::{verify, AuthError};
use event_ingestor::configs::default_host;
use event_ingestor::events::{default_topic, ParseError};
use event_ingestor::message::{EncodedMessage, MessageDecodeError};
use event_ingestor::parse::parse_event;
use event_ingestor::pipeline::{build_message, prepare, PipelineError};
use event_ingestor::resolve::resolve_attributes;

const BODY: &[u8] = b"hello world";
const SIG: &str = "c0zGLzKEFWj0VxWuufTXiRMk5tlI5MbGDAYhzaxIYjo=";

const EVENT_BODY: &[u8] = b"{\"user_id\":\"u1\",\"version\":\"9\",\"initiator\":{},\"event_name\":\"item:completed\",\"event_data\":{\"id\":\"1\",\"project_id\":\"P1\",\"section_id\":null}}";
const EVENT_SIG: &str = "12hzrAdd7raLt7J+U0KNgmbzw2cT0hjkxCKi3crzpX4=";
const EVENT_BODY_B64: &str = "eyJ1c2VyX2lkIjoidTEiLCJ2ZXJzaW9uIjoiOSIsImluaXRpYXRvciI6e30sImV2ZW50X25hbWUiOiJpdGVtOmNvbXBsZXRlZCIsImV2ZW50X2RhdGEiOnsiaWQiOiIxIiwicHJvamVjdF9pZCI6IlAxIiwic2VjdGlvbl9pZCI6bnVsbH19";

#[test]
fn verify_accepts_the_matching_signature() {
    assert_eq!(verify(BODY, Some(SIG), "secret"), Ok(()));
}

#[test]
fn verify_rejects_missing_header() {
    assert_eq!(verify(BODY, None, "secret"), Err(AuthError::MissingSignature));
}

#[test]
fn verify_rejects_mutated_body() {
    assert_eq!(verify(b"hello worle", Some(SIG), "secret"), Err(AuthError::InvalidSignature));
}

#[test]
fn verify_rejects_mutated_secret() {
    assert_eq!(verify(BODY, Some(SIG), "secres"), Err(AuthError::InvalidSignature));
}

#[test]
fn verify_rejects_mutated_header() {
    let mut wrong = String::from("d");
    wrong.push_str(&SIG[1..]);
    assert_eq!(verify(BODY, Some(wrong.as_str()), "secret"), Err(AuthError::InvalidSignature));
}

#[test]
fn prepare_authenticates_then_parses() {
    let ev = prepare(EVENT_BODY, Some(EVENT_SIG), "s3cret").unwrap();
    assert_eq!(ev.user_id, "u1");
    assert_eq!(ev.version, "9");
    assert_eq!(ev.event_name, "item:completed");
}

#[test]
fn prepare_rejects_missing_signature() {
    assert!(matches!(
        prepare(EVENT_BODY, None, "s3cret"),
        Err(PipelineError::Auth(AuthError::MissingSignature))
    ));
}

#[test]
fn prepare_rejects_wrong_signature() {
    assert!(matches!(
        prepare(EVENT_BODY, Some(SIG), "s3cret"),
        Err(PipelineError::Auth(AuthError::InvalidSignature))
    ));
}

#[test]
fn prepare_rejects_malformed_body() {
    assert!(matches!(
        prepare(b"{", Some("D/6tX4bR7HWZ93VS9/qvFdqPmY4szJ/dOcOLdWvzGjc="), "s3cret"),
        Err(PipelineError::Parse(ParseError::MalformedJson))
    ));
}

#[test]
fn parse_rejects_invalid_json() {
    assert_eq!(parse_event(b"nope").unwrap_err(), ParseError::MalformedJson);
}

#[test]
fn parse_rejects_missing_envelope_fields() {
    let no_event_name = b"{\"user_id\":\"u\",\"version\":\"9\",\"initiator\":{},\"event_data\":{}}";
    assert_eq!(parse_event(no_event_name).unwrap_err(), ParseError::MalformedJson);

    let numeric_user = b"{\"user_id\":3,\"version\":\"9\",\"initiator\":{},\"event_name\":\"n\",\"event_data\":{}}";
    assert_eq!(parse_event(numeric_user).unwrap_err(), ParseError::MalformedJson);

    let no_initiator = b"{\"user_id\":\"u\",\"version\":\"9\",\"event_name\":\"n\",\"event_data\":{}}";
    assert_eq!(parse_event(no_initiator).unwrap_err(), ParseError::MalformedJson);
}

#[test]
fn parse_classifies_payload_fields() {
    let body = b"{\"user_id\":\"u\",\"version\":\"9\",\"initiator\":{},\"event_name\":\"item:added\",\"event_data\":{\"id\":\"7\",\"project_id\":5}}";
    let ev = parse_event(body).unwrap();
    let catalog = Vec::new();
    assert_eq!(
        resolve_attributes(&ev, &catalog, None).unwrap_err(),
        ParseError::UnknownEventShape
    );
}

#[test]
fn pipeline_end_to_end_builds_message() {
    let ev = prepare(EVENT_BODY, Some(EVENT_SIG), "s3cret").unwrap();
    let catalog = vec![
        event_ingestor::events::TodoistProject {
            id: "P1".to_string(),
            name: "Home".to_string(),
            parent_id: Some("P0".to_string()),
        },
        event_ingestor::events::TodoistProject {
            id: "P0".to_string(),
            name: "Life".to_string(),
            parent_id: None,
        },
    ];
    let attrs = resolve_attributes(&ev, &catalog, None).unwrap();
    let message = build_message(EVENT_BODY, &ev.event_name, &attrs);
    assert_eq!(message.data().as_str(), EVENT_BODY_B64);
    assert_eq!(message.decode().unwrap(), EVENT_BODY.to_vec());
    assert_eq!(message.ordering_key(), &Some("1".to_string()));
    let pairs = message.attributes().unwrap();
    assert_eq!(pairs.len(), 5);
    assert_eq!(pairs[0], ("event_name".to_string(), "item:completed".to_string()));
    assert_eq!(pairs[1], ("project_name".to_string(), "Home".to_string()));
    assert_eq!(pairs[2], ("parent_name".to_string(), "Life".to_string()));
    assert_eq!(pairs[3], ("parent_parent_name".to_string(), "".to_string()));
    assert_eq!(pairs[4], ("section_name".to_string(), "".to_string()));
}

#[test]
fn message_round_trips_payload() {
    let message = EncodedMessage::new_binary(b"payload", None, None);
    assert_eq!(message.data().as_str(), "cGF5bG9hZA==");
    assert_eq!(message.decode().unwrap(), b"payload".to_vec());
    assert!(message.attributes().is_none());
    assert!(message.ordering_key().is_none());
}

#[test]
fn message_with_bad_payload_fails_to_decode() {
    let message = EncodedMessage::from_parts("!!!".to_string(), None, None);
    assert_eq!(message.decode().unwrap_err(), MessageDecodeError::InvalidBase64);
}

#[test]
fn defaults_are_fixed() {
    assert_eq!(default_host().as_str(), "0.0.0.0:8080");
    assert_eq!(default_topic().as_str(), "todoist");
}
