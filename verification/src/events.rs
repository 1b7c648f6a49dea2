use vstd::prelude::*;
use vstd::string::StringExecFns;

verus! {

/// Per-service settings: API credentials, the shared webhook secret, and the
/// topic outbound messages are published to.
pub struct TodoistConfig {
    pub client_id: String,
    pub client_secret: String,
    pub access_token: String,
    pub topic: String,
}

/// Topic name used when none is configured.
pub fn default_topic() -> (r: String)
    ensures
        r@ == "todoist"@,
{
    String::from_str("todoist")
}

/// A parse failure: the body is not the expected JSON envelope, or the inner
/// payload does not match the shape the dispatched branch expects.
#[derive(Clone, Copy, PartialEq, Eq, Debug)]
pub enum ParseError {
    MalformedJson,
    UnknownEventShape,
}

/// A section fetch that did not produce a section. Section resolution is
/// best-effort, so this error is always recovered into an empty name.
#[derive(Clone, Copy, PartialEq, Eq, Debug)]
pub enum LookupError {
    NotFound,
    Transport,
}

/// One field of the event's inner payload, as found in the decoded JSON
/// object: absent, JSON null, a JSON string, or any other JSON value.
#[derive(Clone, PartialEq, Eq, Debug)]
pub enum FieldValue {
    Missing,
    Null,
    Text(String),
    Other,
}

/// The mathematical content of a payload field.
pub ghost enum FieldClass {
    Missing,
    Null,
    Text(Seq<char>),
    Other,
}

impl View for FieldValue {
    type V = FieldClass;

    open spec fn view(&self) -> FieldClass {
        match self {
            FieldValue::Missing => FieldClass::Missing,
            FieldValue::Null => FieldClass::Null,
            FieldValue::Text(s) => FieldClass::Text(s@),
            FieldValue::Other => FieldClass::Other,
        }
    }
}

/// The fields of `event_data` that any dispatch branch may read. The envelope
/// keeps them undecoded in this form; each branch checks the shape it needs.
#[derive(Clone, Debug)]
pub struct EventData {
    pub id: FieldValue,
    pub name: FieldValue,
    pub parent_id: FieldValue,
    pub project_id: FieldValue,
    pub section_id: FieldValue,
    pub v2_id: FieldValue,
    pub v2_parent_id: FieldValue,
}

/// The mathematical content of an `EventData` value.
pub ghost struct EventDataView {
    pub id: FieldClass,
    pub name: FieldClass,
    pub parent_id: FieldClass,
    pub project_id: FieldClass,
    pub section_id: FieldClass,
    pub v2_id: FieldClass,
    pub v2_parent_id: FieldClass,
}

impl View for EventData {
    type V = EventDataView;

    open spec fn view(&self) -> EventDataView {
        EventDataView {
            id: self.id@,
            name: self.name@,
            parent_id: self.parent_id@,
            project_id: self.project_id@,
            section_id: self.section_id@,
            v2_id: self.v2_id@,
            v2_parent_id: self.v2_parent_id@,
        }
    }
}

/// The decoded JSON envelope common to all notifications.
#[derive(Clone, Debug)]
pub struct TodoistEvent {
    pub user_id: String,
    pub version: String,
    pub event_name: String,
    pub event_data: EventData,
}

/// `event_data` of an item or section event.
#[derive(Clone, Debug)]
pub struct SectionOrItemEvent {
    pub id: String,
    pub parent_id: Option<String>,
    pub project_id: Option<String>,
    pub section_id: Option<String>,
}

/// `event_data` of a project event. The `v2_*` fields carry a second id
/// scheme that appears in source data but is never consulted for resolution.
#[derive(Clone, Debug)]
pub struct ProjectEvent {
    pub id: String,
    pub name: String,
    pub parent_id: Option<String>,
    pub v2_id: Option<String>,
    pub v2_parent_id: Option<String>,
}

/// One row of the flat project catalog.
#[derive(Clone, Debug)]
pub struct TodoistProject {
    pub id: String,
    pub name: String,
    pub parent_id: Option<String>,
}

/// A section, fetched independently by id.
#[derive(Clone, Debug)]
pub struct TodoistSection {
    pub id: String,
    pub name: String,
}

/// Resolution output: the ordering key and the four name attributes. Name
/// fields are the empty string when the reference could not be resolved.
#[derive(Clone, Debug)]
pub struct ExtractedAttributes {
    pub id: String,
    pub project_name: String,
    pub parent_name: String,
    pub parent_parent_name: String,
    pub section_name: String,
}

/// The mathematical content of an `ExtractedAttributes` value.
pub ghost struct AttrsView {
    pub id: Seq<char>,
    pub project_name: Seq<char>,
    pub parent_name: Seq<char>,
    pub parent_parent_name: Seq<char>,
    pub section_name: Seq<char>,
}

impl View for ExtractedAttributes {
    type V = AttrsView;

    open spec fn view(&self) -> AttrsView {
        AttrsView {
            id: self.id@,
            project_name: self.project_name@,
            parent_name: self.parent_name@,
            parent_parent_name: self.parent_parent_name@,
            section_name: self.section_name@,
        }
    }
}

/// The mathematical content of a project event's payload.
pub ghost struct ProjectDataView {
    pub id: Seq<char>,
    pub name: Seq<char>,
    pub parent_id: Option<Seq<char>>,
    pub v2_id: Option<Seq<char>>,
    pub v2_parent_id: Option<Seq<char>>,
}

impl View for ProjectEvent {
    type V = ProjectDataView;

    open spec fn view(&self) -> ProjectDataView {
        ProjectDataView {
            id: self.id@,
            name: self.name@,
            parent_id: opt_str_view(self.parent_id),
            v2_id: opt_str_view(self.v2_id),
            v2_parent_id: opt_str_view(self.v2_parent_id),
        }
    }
}

/// The mathematical content of an item or section event's payload.
pub ghost struct ItemDataView {
    pub id: Seq<char>,
    pub parent_id: Option<Seq<char>>,
    pub project_id: Option<Seq<char>>,
    pub section_id: Option<Seq<char>>,
}

impl View for SectionOrItemEvent {
    type V = ItemDataView;

    open spec fn view(&self) -> ItemDataView {
        ItemDataView {
            id: self.id@,
            parent_id: opt_str_view(self.parent_id),
            project_id: opt_str_view(self.project_id),
            section_id: opt_str_view(self.section_id),
        }
    }
}

/// The character content of an optional string.
pub open spec fn opt_str_view(o: Option<String>) -> Option<Seq<char>> {
    match o {
        Option::None => None,
        Option::Some(s) => Some(s@),
    }
}

} // verus!
