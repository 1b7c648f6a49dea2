use event_ingestor::events::{
    EventData, FieldValue, LookupError, ParseError, TodoistEvent, TodoistProject, TodoistSection,
};
use event_ingestor::resolve::{
    extract_item_section_attributes, extract_project_attributes, resolve_attributes,
    section_request,
};

fn text(s: &str) -> FieldValue {
    FieldValue::Text(s.to_string())
}

fn empty_data() -> EventData {
    EventData {
        id: FieldValue::Missing,
        name: FieldValue::Missing,
        parent_id: FieldValue::Missing,
        project_id: FieldValue::Missing,
        section_id: FieldValue::Missing,
        v2_id: FieldValue::Missing,
        v2_parent_id: FieldValue::Missing,
    }
}

fn event(name: &str, data: EventData) -> TodoistEvent {
    TodoistEvent {
        user_id: "u1".to_string(),
        version: "9".to_string(),
        event_name: name.to_string(),
        event_data: data,
    }
}

fn project(id: &str, name: &str, parent: Option<&str>) -> TodoistProject {
    TodoistProject {
        id: id.to_string(),
        name: name.to_string(),
        parent_id: parent.map(|s| s.to_string()),
    }
}

fn section(id: &str, name: &str) -> TodoistSection {
    TodoistSection { id: id.to_string(), name: name.to_string() }
}

#[test]
fn item_event_resolves_project_chain() {
    let mut data = empty_data();
    data.id = text("1");
    data.project_id = text("P1");
    data.section_id = FieldValue::Null;
    let ev = event("item:completed", data);
    let catalog = vec![project("P1", "Home", Some("P0")), project("P0", "Life", None)];
    assert!(matches!(section_request(&ev), Ok(None)));
    let attrs = resolve_attributes(&ev, &catalog, None).unwrap();
    assert_eq!(attrs.id, "1");
    assert_eq!(attrs.project_name, "Home");
    assert_eq!(attrs.parent_name, "Life");
    assert_eq!(attrs.parent_parent_name, "");
    assert_eq!(attrs.section_name, "");
}

#[test]
fn project_event_resolves_parent_chain() {
    let mut data = empty_data();
    data.id = text("P1");
    data.name = text("Home");
    data.parent_id = text("P0");
    let ev = event("project:updated", data);
    let catalog = vec![project("P1", "Home", Some("P0")), project("P0", "Life", None)];
    assert!(matches!(section_request(&ev), Ok(None)));
    let attrs = resolve_attributes(&ev, &catalog, None).unwrap();
    assert_eq!(attrs.id, "P1");
    assert_eq!(attrs.project_name, "Home");
    assert_eq!(attrs.parent_name, "Life");
    assert_eq!(attrs.parent_parent_name, "");
    assert_eq!(attrs.section_name, "");
}

#[test]
fn resolution_stops_after_two_hops() {
    let catalog = vec![
        project("A", "Alpha", None),
        project("B", "Beta", Some("A")),
        project("C", "Gamma", Some("B")),
        project("D", "Delta", Some("C")),
    ];
    let mut data = empty_data();
    data.id = text("D");
    data.name = text("Delta");
    data.parent_id = text("C");
    let ev = event("project:updated", data);
    let attrs = resolve_attributes(&ev, &catalog, None).unwrap();
    assert_eq!(attrs.parent_name, "Gamma");
    assert_eq!(attrs.parent_parent_name, "Beta");

    let mut item = empty_data();
    item.id = text("42");
    item.project_id = text("D");
    let ev2 = event("item:added", item);
    let attrs2 = resolve_attributes(&ev2, &catalog, None).unwrap();
    assert_eq!(attrs2.project_name, "Delta");
    assert_eq!(attrs2.parent_name, "Gamma");
    assert_eq!(attrs2.parent_parent_name, "Beta");
}

#[test]
fn resolving_twice_is_identical() {
    let mut data = empty_data();
    data.id = text("7");
    data.project_id = text("P1");
    data.section_id = text("S5");
    let ev = event("item:updated", data);
    let catalog = vec![project("P1", "Home", None)];
    let outcome = Some(Ok(section("S5", "Inbox")));
    let a = resolve_attributes(&ev, &catalog, outcome.clone()).unwrap();
    let b = resolve_attributes(&ev, &catalog, outcome).unwrap();
    assert_eq!(a.id, b.id);
    assert_eq!(a.project_name, b.project_name);
    assert_eq!(a.parent_name, b.parent_name);
    assert_eq!(a.parent_parent_name, b.parent_parent_name);
    assert_eq!(a.section_name, b.section_name);
}

#[test]
fn section_event_looks_up_own_id() {
    let mut data = empty_data();
    data.id = text("S9");
    data.section_id = text("S5");
    let ev = event("section:added", data);
    assert_eq!(section_request(&ev).unwrap(), Some("S9".to_string()));
}

#[test]
fn item_event_looks_up_section_id() {
    let mut with_section = empty_data();
    with_section.id = text("7");
    with_section.section_id = text("S5");
    let ev = event("item:updated", with_section);
    assert_eq!(section_request(&ev).unwrap(), Some("S5".to_string()));

    let mut without_section = empty_data();
    without_section.id = text("7");
    without_section.section_id = FieldValue::Null;
    let ev2 = event("item:updated", without_section);
    assert_eq!(section_request(&ev2).unwrap(), None);
}

#[test]
fn section_lookup_outcome_feeds_section_name() {
    let mut data = empty_data();
    data.id = text("7");
    data.section_id = text("S5");
    let ev = event("item:updated", data);
    let catalog: Vec<TodoistProject> = Vec::new();

    let ok = resolve_attributes(&ev, &catalog, Some(Ok(section("S5", "Urgent")))).unwrap();
    assert_eq!(ok.section_name, "Urgent");

    let not_found =
        resolve_attributes(&ev, &catalog, Some(Err(LookupError::NotFound))).unwrap();
    assert_eq!(not_found.section_name, "");

    let transport =
        resolve_attributes(&ev, &catalog, Some(Err(LookupError::Transport))).unwrap();
    assert_eq!(transport.section_name, "");
}

#[test]
fn unresolvable_references_yield_empty_names() {
    let mut item = empty_data();
    item.id = text("7");
    item.project_id = text("nowhere");
    let ev = event("item:added", item);
    let catalog = vec![project("P1", "Home", Some("gone"))];
    let attrs = resolve_attributes(&ev, &catalog, None).unwrap();
    assert_eq!(attrs.project_name, "");
    assert_eq!(attrs.parent_name, "");
    assert_eq!(attrs.parent_parent_name, "");

    let mut proj = empty_data();
    proj.id = text("P1");
    proj.name = text("Home");
    let ev2 = event("project:added", proj);
    let attrs2 = resolve_attributes(&ev2, &catalog, None).unwrap();
    assert_eq!(attrs2.project_name, "Home");
    assert_eq!(attrs2.parent_name, "");
    assert_eq!(attrs2.parent_parent_name, "");
}

#[test]
fn item_shape_mismatch_is_rejected() {
    let ev = event("item:added", empty_data());
    let catalog: Vec<TodoistProject> = Vec::new();
    assert_eq!(
        extract_item_section_attributes(&ev, &catalog, None).unwrap_err(),
        ParseError::UnknownEventShape
    );

    let mut other = empty_data();
    other.id = text("7");
    other.project_id = FieldValue::Other;
    let ev2 = event("item:added", other);
    assert_eq!(
        resolve_attributes(&ev2, &catalog, None).unwrap_err(),
        ParseError::UnknownEventShape
    );
}

#[test]
fn project_shape_mismatch_is_rejected() {
    let mut data = empty_data();
    data.id = text("P1");
    let ev = event("project:updated", data);
    let catalog: Vec<TodoistProject> = Vec::new();
    assert_eq!(
        extract_project_attributes(&ev, &catalog).unwrap_err(),
        ParseError::UnknownEventShape
    );

    let mut bad_parent = empty_data();
    bad_parent.id = text("P1");
    bad_parent.name = text("Home");
    bad_parent.parent_id = FieldValue::Other;
    let ev2 = event("project:updated", bad_parent);
    assert_eq!(
        resolve_attributes(&ev2, &catalog, None).unwrap_err(),
        ParseError::UnknownEventShape
    );
}

#[test]
fn first_catalog_match_wins() {
    let catalog = vec![project("P1", "First", None), project("P1", "Second", None)];
    let mut data = empty_data();
    data.id = text("7");
    data.project_id = text("P1");
    let ev = event("item:added", data);
    let attrs = resolve_attributes(&ev, &catalog, None).unwrap();
    assert_eq!(attrs.project_name, "First");
}
