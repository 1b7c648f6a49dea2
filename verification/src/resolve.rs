use vstd::prelude::*;
use vstd::string::StrSliceExecFns;
use crate::events::{
    AttrsView, EventData, ExtractedAttributes, FieldValue, ItemDataView, LookupError,
    ParseError, ProjectDataView, ProjectEvent, SectionOrItemEvent, TodoistEvent,
    TodoistProject, TodoistSection, opt_str_view,
};

verus! {

/// Whether `prefix` is an initial segment of `s`.
pub open spec fn starts_with(s: Seq<char>, prefix: Seq<char>) -> bool {
    s.len() >= prefix.len() && s.subrange(0, prefix.len() as int) == prefix
}

/// Whether the event belongs to the project branch of the dispatch: its name
/// starts with the literal prefix `"project:"`. Every other name falls into
/// the item/section branch.
pub open spec fn is_project_event(event_name: Seq<char>) -> bool {
    starts_with(event_name, "project:"@)
}

/// Whether the acted-upon entity is itself a section: the event name starts
/// with `"section:"`.
pub open spec fn is_section_event(event_name: Seq<char>) -> bool {
    starts_with(event_name, "section:"@)
}

/// Prefix test on string slices.
fn str_starts_with(s: &str, prefix: &str) -> (r: bool)
    ensures
        r == starts_with(s@, prefix@),
{
    let n = prefix.unicode_len();
    let m = s.unicode_len();
    if m < n {
        return false;
    }
    let mut i: usize = 0;
    while i < n
        invariant
            i <= n,
            n == prefix@.len(),
            m == s@.len(),
            n <= m,
            forall|k: int| 0 <= k < i ==> s@[k] == prefix@[k],
        decreases n - i,
    {
        if s.get_char(i) != prefix.get_char(i) {
            proof {
                assert(s@.subrange(0, n as int)[i as int] == s@[i as int]);
            }
            return false;
        }
        i += 1;
    }
    proof {
        assert(s@.subrange(0, n as int) =~= prefix@);
    }
    true
}

/// The first catalog entry whose id equals `id`, in catalog order.
pub open spec fn find_first(catalog: Seq<TodoistProject>, id: Seq<char>) -> Option<TodoistProject>
    decreases catalog.len(),
{
    if catalog.len() == 0 {
        None
    } else if catalog[0].id@ == id {
        Some(catalog[0])
    } else {
        find_first(catalog.drop_first(), id)
    }
}

/// The first catalog entry matching an optional id; none when the id is absent.
pub open spec fn find_by_opt(catalog: Seq<TodoistProject>, oid: Option<Seq<char>>) -> Option<
    TodoistProject,
> {
    match oid {
        Option::None => None,
        Option::Some(id) => find_first(catalog, id),
    }
}

/// A resolved entry's name; the empty string when nothing was resolved.
pub open spec fn name_of(p: Option<TodoistProject>) -> Seq<char> {
    match p {
        Option::None => Seq::empty(),
        Option::Some(q) => q.name@,
    }
}

/// Linear scan for the first catalog entry with the given id.
fn find_project<'a>(catalog: &'a Vec<TodoistProject>, id: &String) -> (r: Option<
    &'a TodoistProject,
>)
    ensures
        match r {
            Option::Some(p) => find_first(catalog@, id@) == Some(*p),
            Option::None => find_first(catalog@, id@) is None,
        },
{
    let n = catalog.len();
    let mut i: usize = 0;
    proof {
        assert(catalog@.skip(0) =~= catalog@);
    }
    while i < n
        invariant
            n == catalog@.len(),
            i <= n,
            find_first(catalog@, id@) == find_first(catalog@.skip(i as int), id@),
        decreases n - i,
    {
        proof {
            assert(catalog@.skip(i as int)[0] == catalog@[i as int]);
        }
        if catalog[i].id == *id {
            return Some(&catalog[i]);
        }
        proof {
            assert(catalog@.skip(i as int).drop_first() =~= catalog@.skip(i as int + 1));
        }
        i += 1;
    }
    proof {
        assert(catalog@.skip(n as int) =~= Seq::<TodoistProject>::empty());
    }
    None
}

/// Linear scan keyed by an optional id.
fn find_project_opt<'a>(catalog: &'a Vec<TodoistProject>, oid: &Option<String>) -> (r: Option<
    &'a TodoistProject,
>)
    ensures
        match r {
            Option::Some(p) => find_by_opt(catalog@, opt_str_view(*oid)) == Some(*p),
            Option::None => find_by_opt(catalog@, opt_str_view(*oid)) is None,
        },
{
    match oid {
        None => None,
        Some(id) => find_project(catalog, id),
    }
}

/// A required payload field: present iff the field holds a JSON string.
pub open spec fn req_field(f: FieldValue) -> Option<Seq<char>> {
    match f {
        FieldValue::Text(s) => Some(s@),
        _ => None,
    }
}

/// An optional payload field: an absent or null field reads as no value, a
/// string field as that value, and any other JSON value as a shape mismatch.
pub open spec fn opt_field(f: FieldValue) -> Option<Option<Seq<char>>> {
    match f {
        FieldValue::Missing => Some(None),
        FieldValue::Null => Some(None),
        FieldValue::Text(s) => Some(Some(s@)),
        FieldValue::Other => None,
    }
}

/// The payload of a project event, when `event_data` has that shape.
pub open spec fn spec_project_data(d: EventData) -> Option<ProjectDataView> {
    match (req_field(d.id), req_field(d.name), opt_field(d.parent_id), opt_field(d.v2_id),
    opt_field(d.v2_parent_id)) {
        (
            Option::Some(id),
            Option::Some(name),
            Option::Some(parent_id),
            Option::Some(v2_id),
            Option::Some(v2_parent_id),
        ) => Some(ProjectDataView { id, name, parent_id, v2_id, v2_parent_id }),
        _ => None,
    }
}

/// The payload of an item or section event, when `event_data` has that shape.
pub open spec fn spec_item_data(d: EventData) -> Option<ItemDataView> {
    match (req_field(d.id), opt_field(d.parent_id), opt_field(d.project_id), opt_field(
        d.section_id,
    )) {
        (
            Option::Some(id),
            Option::Some(parent_id),
            Option::Some(project_id),
            Option::Some(section_id),
        ) => Some(ItemDataView { id, parent_id, project_id, section_id }),
        _ => None,
    }
}

/// Reads an optional payload field, rejecting values that are neither a
/// string nor null nor absent.
fn opt_text(f: &FieldValue) -> (r: Result<Option<String>, ParseError>)
    ensures
        match r {
            Result::Ok(o) => opt_field(*f) == Some(opt_str_view(o)),
            Result::Err(e) => opt_field(*f) is None && e == ParseError::UnknownEventShape,
        },
{
    match f {
        FieldValue::Missing => Ok(None),
        FieldValue::Null => Ok(None),
        FieldValue::Text(s) => Ok(Some(s.clone())),
        FieldValue::Other => Err(ParseError::UnknownEventShape),
    }
}

/// Reads a required payload field, rejecting anything but a string.
fn req_text(f: &FieldValue) -> (r: Result<String, ParseError>)
    ensures
        match r {
            Result::Ok(s) => req_field(*f) == Some(s@),
            Result::Err(e) => req_field(*f) is None && e == ParseError::UnknownEventShape,
        },
{
    match f {
        FieldValue::Text(s) => Ok(s.clone()),
        _ => Err(ParseError::UnknownEventShape),
    }
}

impl ProjectEvent {
    /// The targeted re-parse of `event_data` for the project branch.
    pub fn of_event_data(d: &EventData) -> (r: Result<ProjectEvent, ParseError>)
        ensures
            match r {
                Result::Ok(p) => spec_project_data(*d) == Some(p@),
                Result::Err(e) => spec_project_data(*d) is None && e
                    == ParseError::UnknownEventShape,
            },
    {
        let id = match req_text(&d.id) {
            Ok(s) => s,
            Err(e) => { return Err(e) },
        };
        let name = match req_text(&d.name) {
            Ok(s) => s,
            Err(e) => { return Err(e) },
        };
        let parent_id = match opt_text(&d.parent_id) {
            Ok(o) => o,
            Err(e) => { return Err(e) },
        };
        let v2_id = match opt_text(&d.v2_id) {
            Ok(o) => o,
            Err(e) => { return Err(e) },
        };
        let v2_parent_id = match opt_text(&d.v2_parent_id) {
            Ok(o) => o,
            Err(e) => { return Err(e) },
        };
        Ok(ProjectEvent { id, name, parent_id, v2_id, v2_parent_id })
    }
}

impl SectionOrItemEvent {
    /// The targeted re-parse of `event_data` for the item/section branch.
    pub fn of_event_data(d: &EventData) -> (r: Result<SectionOrItemEvent, ParseError>)
        ensures
            match r {
                Result::Ok(p) => spec_item_data(*d) == Some(p@),
                Result::Err(e) => spec_item_data(*d) is None && e == ParseError::UnknownEventShape,
            },
    {
        let id = match req_text(&d.id) {
            Ok(s) => s,
            Err(e) => { return Err(e) },
        };
        let parent_id = match opt_text(&d.parent_id) {
            Ok(o) => o,
            Err(e) => { return Err(e) },
        };
        let project_id = match opt_text(&d.project_id) {
            Ok(o) => o,
            Err(e) => { return Err(e) },
        };
        let section_id = match opt_text(&d.section_id) {
            Ok(o) => o,
            Err(e) => { return Err(e) },
        };
        Ok(SectionOrItemEvent { id, parent_id, project_id, section_id })
    }
}

/// The attributes the project branch resolves: the acted-upon project's own
/// id and name, then a two-hop ancestor walk for parent and grandparent
/// names. Projects never carry a section name.
pub open spec fn spec_project_attrs(p: ProjectDataView, catalog: Seq<TodoistProject>) -> AttrsView {
    let parent = find_by_opt(catalog, p.parent_id);
    let grand = match parent {
        Option::None => None,
        Option::Some(q) => find_by_opt(catalog, opt_str_view(q.parent_id)),
    };
    AttrsView {
        id: p.id,
        project_name: p.name,
        parent_name: name_of(parent),
        parent_parent_name: name_of(grand),
        section_name: Seq::empty(),
    }
}

/// The section name carried by a lookup outcome: empty when no lookup was
/// made or when the lookup failed, since section resolution is best-effort.
pub open spec fn spec_section_name(section: Option<Result<TodoistSection, LookupError>>) -> Seq<
    char,
> {
    match section {
        Option::Some(Result::Ok(s)) => s.name@,
        _ => Seq::empty(),
    }
}

/// The attributes the item/section branch resolves: the containing project's
/// name, a two-hop ancestor walk rooted at that project, and the best-effort
/// section name.
pub open spec fn spec_item_attrs(
    d: ItemDataView,
    catalog: Seq<TodoistProject>,
    section: Option<Result<TodoistSection, LookupError>>,
) -> AttrsView {
    let project = find_by_opt(catalog, d.project_id);
    let parent = match project {
        Option::None => None,
        Option::Some(q) => find_by_opt(catalog, opt_str_view(q.parent_id)),
    };
    let grand = match parent {
        Option::None => None,
        Option::Some(q) => find_by_opt(catalog, opt_str_view(q.parent_id)),
    };
    AttrsView {
        id: d.id,
        project_name: name_of(project),
        parent_name: name_of(parent),
        parent_parent_name: name_of(grand),
        section_name: spec_section_name(section),
    }
}

/// The full resolution of one event against one catalog snapshot and one
/// section-lookup outcome; none when the payload does not match the shape of
/// the dispatched branch.
pub open spec fn spec_resolve(
    e: TodoistEvent,
    catalog: Seq<TodoistProject>,
    section: Option<Result<TodoistSection, LookupError>>,
) -> Option<AttrsView> {
    if is_project_event(e.event_name@) {
        match spec_project_data(e.event_data) {
            Option::None => None,
            Option::Some(p) => Some(spec_project_attrs(p, catalog)),
        }
    } else {
        match spec_item_data(e.event_data) {
            Option::None => None,
            Option::Some(d) => Some(spec_item_attrs(d, catalog, section)),
        }
    }
}

/// The section id the resolution of `e` will ask the catalog client for:
/// none for the project branch, the acted-upon entity's own id for a
/// `section:` event, and otherwise the payload's `section_id`, if present.
pub open spec fn spec_section_request(e: TodoistEvent) -> Option<Option<Seq<char>>> {
    if is_project_event(e.event_name@) {
        Some(None)
    } else {
        match spec_item_data(e.event_data) {
            Option::None => None,
            Option::Some(d) => Some(
                if is_section_event(e.event_name@) {
                    Some(d.id)
                } else {
                    d.section_id
                },
            ),
        }
    }
}

/// Which section to fetch before resolving `event`: `Ok(None)` when no fetch
/// is wanted, `Ok(Some(id))` for exactly one fetch, and a shape error when
/// the payload does not fit the dispatched branch.
pub fn section_request(event: &TodoistEvent) -> (r: Result<Option<String>, ParseError>)
    ensures
        match r {
            Result::Ok(o) => spec_section_request(*event) == Some(opt_str_view(o)),
            Result::Err(e) => spec_section_request(*event) is None && e
                == ParseError::UnknownEventShape,
        },
{
    if str_starts_with(event.event_name.as_str(), "project:") {
        Ok(None)
    } else {
        let data = match SectionOrItemEvent::of_event_data(&event.event_data) {
            Ok(d) => d,
            Err(e) => { return Err(e) },
        };
        if str_starts_with(event.event_name.as_str(), "section:") {
            Ok(Some(data.id))
        } else {
            Ok(data.section_id)
        }
    }
}

/// Resolution for the project branch: parse the payload as a project event,
/// then walk at most two ancestor hops in the catalog.
pub fn extract_project_attributes(event: &TodoistEvent, projects: &Vec<TodoistProject>) -> (r:
    Result<ExtractedAttributes, ParseError>)
    ensures
        match r {
            Result::Ok(a) => spec_project_data(event.event_data) matches Some(p) && a@
                == spec_project_attrs(p, projects@),
            Result::Err(e) => spec_project_data(event.event_data) is None && e
                == ParseError::UnknownEventShape,
        },
{
    let project = match ProjectEvent::of_event_data(&event.event_data) {
        Ok(p) => p,
        Err(e) => { return Err(e) },
    };
    let parent = find_project_opt(projects, &project.parent_id);
    let parent_name = match parent {
        None => String::new(),
        Some(q) => q.name.clone(),
    };
    let grand = match parent {
        None => None,
        Some(q) => find_project_opt(projects, &q.parent_id),
    };
    let parent_parent_name = match grand {
        None => String::new(),
        Some(q) => q.name.clone(),
    };
    Ok(
        ExtractedAttributes {
            id: project.id,
            project_name: project.name,
            parent_name,
            parent_parent_name,
            section_name: String::new(),
        },
    )
}

/// Resolution for the item/section branch: parse the payload as an item or
/// section event, walk at most two ancestor hops above its containing
/// project, and take the section name from the lookup outcome, if any.
pub fn extract_item_section_attributes(
    event: &TodoistEvent,
    projects: &Vec<TodoistProject>,
    section: Option<Result<TodoistSection, LookupError>>,
) -> (r: Result<ExtractedAttributes, ParseError>)
    ensures
        match r {
            Result::Ok(a) => spec_item_data(event.event_data) matches Some(d) && a@
                == spec_item_attrs(d, projects@, section),
            Result::Err(e) => spec_item_data(event.event_data) is None && e
                == ParseError::UnknownEventShape,
        },
{
    let data = match SectionOrItemEvent::of_event_data(&event.event_data) {
        Ok(d) => d,
        Err(e) => { return Err(e) },
    };
    let project = find_project_opt(projects, &data.project_id);
    let project_name = match project {
        None => String::new(),
        Some(q) => q.name.clone(),
    };
    let parent = match project {
        None => None,
        Some(q) => find_project_opt(projects, &q.parent_id),
    };
    let parent_name = match parent {
        None => String::new(),
        Some(q) => q.name.clone(),
    };
    let grand = match parent {
        None => None,
        Some(q) => find_project_opt(projects, &q.parent_id),
    };
    let parent_parent_name = match grand {
        None => String::new(),
        Some(q) => q.name.clone(),
    };
    let section_name = match section {
        Some(Ok(s)) => s.name,
        _ => String::new(),
    };
    Ok(
        ExtractedAttributes {
            id: data.id,
            project_name,
            parent_name,
            parent_parent_name,
            section_name,
        },
    )
}

/// The dispatch: events whose name starts with `"project:"` take the project
/// branch; every other event takes the item/section branch.
pub fn resolve_attributes(
    event: &TodoistEvent,
    projects: &Vec<TodoistProject>,
    section: Option<Result<TodoistSection, LookupError>>,
) -> (r: Result<ExtractedAttributes, ParseError>)
    ensures
        match r {
            Result::Ok(a) => spec_resolve(*event, projects@, section) == Some(a@),
            Result::Err(e) => spec_resolve(*event, projects@, section) is None && e
                == ParseError::UnknownEventShape,
        },
{
    if str_starts_with(event.event_name.as_str(), "project:") {
        extract_project_attributes(event, projects)
    } else {
        extract_item_section_attributes(event, projects, section)
    }
}

/// The section name of a resolved event has one source per branch: outside
/// the project branch it is exactly the section-lookup outcome's name, and in
/// the project branch it is always empty — project resolution never consults
/// a section.
pub proof fn lemma_section_name_source(
    e: TodoistEvent,
    catalog: Seq<TodoistProject>,
    section: Option<Result<TodoistSection, LookupError>>,
)
    ensures
        spec_resolve(e, catalog, section) matches Some(v) ==> v.section_name == (
        if is_project_event(e.event_name@) {
            Seq::<char>::empty()
        } else {
            spec_section_name(section)
        }),
{
}

/// Absent or unresolvable references degrade to empty names, never to a
/// failure: resolution still yields attributes (only a payload-shape mismatch
/// makes it fail), with every name downstream of the missing reference empty.
pub proof fn lemma_unresolvable_references_empty(
    d: ItemDataView,
    p: ProjectDataView,
    catalog: Seq<TodoistProject>,
    section: Option<Result<TodoistSection, LookupError>>,
)
    ensures
        find_by_opt(catalog, d.project_id) is None ==> {
            let v = spec_item_attrs(d, catalog, section);
            v.project_name == Seq::<char>::empty() && v.parent_name == Seq::<char>::empty()
                && v.parent_parent_name == Seq::<char>::empty()
        },
        find_by_opt(catalog, p.parent_id) is None ==> {
            let v = spec_project_attrs(p, catalog);
            v.parent_name == Seq::<char>::empty() && v.parent_parent_name == Seq::<char>::empty()
        },
{
}

/// Resolution is a function of the event, the catalog snapshot and the
/// lookup outcome: resolving the same triple twice yields identical
/// attributes.
pub proof fn lemma_resolve_deterministic(
    e: TodoistEvent,
    catalog: Seq<TodoistProject>,
    section: Option<Result<TodoistSection, LookupError>>,
    a1: AttrsView,
    a2: AttrsView,
)
    requires
        spec_resolve(e, catalog, section) == Some(a1),
        spec_resolve(e, catalog, section) == Some(a2),
    ensures
        a1 == a2,
{
}

/// The ancestor walk of the project branch stops after two hops: when the
/// acted-upon project's parent resolves to `c` and `c`'s parent resolves to
/// `b`, the result names exactly `c` and `b`, whatever stands above `b`.
pub proof fn lemma_two_hop_bound(
    p: ProjectDataView,
    catalog: Seq<TodoistProject>,
    c: TodoistProject,
    b: TodoistProject,
)
    requires
        find_by_opt(catalog, p.parent_id) == Some(c),
        find_by_opt(catalog, opt_str_view(c.parent_id)) == Some(b),
    ensures
        spec_project_attrs(p, catalog).parent_name == c.name@,
        spec_project_attrs(p, catalog).parent_parent_name == b.name@,
{
}

/// The catalog invariant of the data model: ids are unique across the whole
/// catalog.
pub open spec fn unique_ids(catalog: Seq<TodoistProject>) -> bool {
    forall|i: int, j: int|
        0 <= i < j < catalog.len() ==> catalog[i].id@ != catalog[j].id@
}

/// Under unique ids, the first-match scan finds exactly the contained entry
/// with that id.
pub proof fn lemma_find_first_unique(catalog: Seq<TodoistProject>, c: TodoistProject)
    requires
        unique_ids(catalog),
        catalog.contains(c),
    ensures
        find_first(catalog, c.id@) == Some(c),
    decreases catalog.len(),
{
    let k = choose|k: int| 0 <= k < catalog.len() && catalog[k] == c;
    if catalog[0].id@ == c.id@ {
        if k != 0 {
            assert(catalog[0].id@ != catalog[k].id@);
            assert(false);
        }
    } else {
        let rest = catalog.drop_first();
        assert(rest[k - 1] == c);
        assert(rest.contains(c));
        assert(unique_ids(rest)) by {
            assert forall|i: int, j: int|
                0 <= i < j < rest.len() implies rest[i].id@ != rest[j].id@ by {
                assert(rest[i] == catalog[i + 1]);
                assert(rest[j] == catalog[j + 1]);
            }
        }
        lemma_find_first_unique(rest, c);
    }
}

/// Under the catalog invariant of unique ids, a concrete parent chain pins
/// the project branch's whole result: an event on a project whose parent
/// entry is `c`, where `c`'s parent entry is `b`, resolves to `c`'s and
/// `b`'s names — `b`'s own parent is never consulted, so no name above `b`
/// can appear anywhere in the result.
pub proof fn lemma_two_hop_bound_unique(
    p: ProjectDataView,
    catalog: Seq<TodoistProject>,
    c: TodoistProject,
    b: TodoistProject,
)
    requires
        unique_ids(catalog),
        catalog.contains(c),
        catalog.contains(b),
        p.parent_id == Some(c.id@),
        opt_str_view(c.parent_id) == Some(b.id@),
    ensures
        spec_project_attrs(p, catalog) == (AttrsView {
            id: p.id,
            project_name: p.name,
            parent_name: c.name@,
            parent_parent_name: b.name@,
            section_name: Seq::<char>::empty(),
        }),
{
    lemma_find_first_unique(catalog, c);
    lemma_find_first_unique(catalog, b);
}

/// Under the catalog invariant of unique ids, a concrete chain above the
/// containing project pins the item/section branch's whole result: the walk
/// rooted at project entry `pd` names `pd`, its parent `c` and its
/// grandparent `b`, and never takes a third hop, so no name above `b` can
/// appear anywhere in the result.
pub proof fn lemma_two_hop_bound_item_unique(
    d: ItemDataView,
    catalog: Seq<TodoistProject>,
    section: Option<Result<TodoistSection, LookupError>>,
    pd: TodoistProject,
    c: TodoistProject,
    b: TodoistProject,
)
    requires
        unique_ids(catalog),
        catalog.contains(pd),
        catalog.contains(c),
        catalog.contains(b),
        d.project_id == Some(pd.id@),
        opt_str_view(pd.parent_id) == Some(c.id@),
        opt_str_view(c.parent_id) == Some(b.id@),
    ensures
        spec_item_attrs(d, catalog, section) == (AttrsView {
            id: d.id,
            project_name: pd.name@,
            parent_name: c.name@,
            parent_parent_name: b.name@,
            section_name: spec_section_name(section),
        }),
{
    lemma_find_first_unique(catalog, pd);
    lemma_find_first_unique(catalog, c);
    lemma_find_first_unique(catalog, b);
}

/// The ancestor walk of the item/section branch stops two hops above the
/// containing project: the result names that project, its parent and its
/// grandparent, whatever stands above the grandparent.
pub proof fn lemma_two_hop_bound_item(
    d: ItemDataView,
    catalog: Seq<TodoistProject>,
    section: Option<Result<TodoistSection, LookupError>>,
    pd: TodoistProject,
    c: TodoistProject,
    b: TodoistProject,
)
    requires
        find_by_opt(catalog, d.project_id) == Some(pd),
        find_by_opt(catalog, opt_str_view(pd.parent_id)) == Some(c),
        find_by_opt(catalog, opt_str_view(c.parent_id)) == Some(b),
    ensures
        spec_item_attrs(d, catalog, section).project_name == pd.name@,
        spec_item_attrs(d, catalog, section).parent_name == c.name@,
        spec_item_attrs(d, catalog, section).parent_parent_name == b.name@,
{
}

} // verus!
