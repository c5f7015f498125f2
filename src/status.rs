use vstd::prelude::*;
use crate::json::{field_of, view_items, Json, JsonNumber, JsonV, NumberV};

verus! {

/// Page metadata of a provider's status document.
#[derive(Debug, PartialEq, Eq)]
pub struct StatusPageInfo {
    pub id: String,
    pub name: String,
    pub time_zone: String,
    pub updated_at: String,
    pub url: String,
}

/// One component of a provider's status document.
#[derive(Debug, PartialEq, Eq)]
pub struct StatusEntry {
    pub created_at: String,
    pub updated_at: String,
    pub start_date: Option<String>,
    pub description: Option<String>,
    pub name: String,
    pub status: String,
    pub position: i64,
    pub id: String,
    pub page_id: String,
    pub group: bool,
    pub group_id: Option<String>,
    pub showcase: bool,
    pub only_show_if_degraded: bool,
}

/// A provider's status document: its page and its components, in order.
#[derive(Debug, PartialEq, Eq)]
pub struct StatusRoot {
    pub page: StatusPageInfo,
    pub components: Vec<StatusEntry>,
}

/// Why a JSON value is not a status document: the member that is missing
/// or has the wrong type.
#[derive(Debug, PartialEq, Eq)]
pub struct ShapeError {
    pub field: String,
}

pub open spec fn opt_view(o: Option<String>) -> Option<Seq<char>> {
    match o {
        Some(s) => Some(s@),
        None => None,
    }
}

/// The text of member `key`, where it is a string.
pub open spec fn text_of(v: JsonV, key: Seq<char>) -> Option<Seq<char>> {
    match field_of(v, key) {
        Some(JsonV::Str(s)) => Some(s),
        _ => None,
    }
}

/// Member `key` read as an optional text: absent or null is `Some(None)`,
/// a string is `Some(Some(text))`, anything else does not fit.
pub open spec fn opt_text_of(v: JsonV, key: Seq<char>) -> Option<Option<Seq<char>>> {
    match field_of(v, key) {
        None => Some(None),
        Some(JsonV::Null) => Some(None),
        Some(JsonV::Str(s)) => Some(Some(s)),
        _ => None,
    }
}

/// Member `key` read as a signed 64-bit integer.
pub open spec fn int_of(v: JsonV, key: Seq<char>) -> Option<i64> {
    match field_of(v, key) {
        Some(JsonV::Number(NumberV::PosInt(n))) => if n <= i64::MAX {
            Some(n as i64)
        } else {
            None
        },
        Some(JsonV::Number(NumberV::NegInt(n))) => Some(n),
        _ => None,
    }
}

/// Member `key` read as a boolean.
pub open spec fn bool_of(v: JsonV, key: Seq<char>) -> Option<bool> {
    match field_of(v, key) {
        Some(JsonV::Bool(b)) => Some(b),
        _ => None,
    }
}

/// `v` is a page description.
pub open spec fn page_ok(v: JsonV) -> bool {
    &&& text_of(v, "id"@) is Some
    &&& text_of(v, "name"@) is Some
    &&& text_of(v, "time_zone"@) is Some
    &&& text_of(v, "updated_at"@) is Some
    &&& text_of(v, "url"@) is Some
}

/// `p` holds what `v` says of the page.
pub open spec fn page_matches(p: StatusPageInfo, v: JsonV) -> bool {
    &&& text_of(v, "id"@) == Some(p.id@)
    &&& text_of(v, "name"@) == Some(p.name@)
    &&& text_of(v, "time_zone"@) == Some(p.time_zone@)
    &&& text_of(v, "updated_at"@) == Some(p.updated_at@)
    &&& text_of(v, "url"@) == Some(p.url@)
}

/// `v` describes a component.
pub open spec fn entry_ok(v: JsonV) -> bool {
    &&& text_of(v, "created_at"@) is Some
    &&& text_of(v, "updated_at"@) is Some
    &&& opt_text_of(v, "start_date"@) is Some
    &&& opt_text_of(v, "description"@) is Some
    &&& text_of(v, "name"@) is Some
    &&& text_of(v, "status"@) is Some
    &&& int_of(v, "position"@) is Some
    &&& text_of(v, "id"@) is Some
    &&& text_of(v, "page_id"@) is Some
    &&& bool_of(v, "group"@) is Some
    &&& opt_text_of(v, "group_id"@) is Some
    &&& bool_of(v, "showcase"@) is Some
    &&& bool_of(v, "only_show_if_degraded"@) is Some
}

/// `e` holds what `v` says of the component.
pub open spec fn entry_matches(e: StatusEntry, v: JsonV) -> bool {
    &&& text_of(v, "created_at"@) == Some(e.created_at@)
    &&& text_of(v, "updated_at"@) == Some(e.updated_at@)
    &&& opt_text_of(v, "start_date"@) == Some(opt_view(e.start_date))
    &&& opt_text_of(v, "description"@) == Some(opt_view(e.description))
    &&& text_of(v, "name"@) == Some(e.name@)
    &&& text_of(v, "status"@) == Some(e.status@)
    &&& int_of(v, "position"@) == Some(e.position)
    &&& text_of(v, "id"@) == Some(e.id@)
    &&& text_of(v, "page_id"@) == Some(e.page_id@)
    &&& bool_of(v, "group"@) == Some(e.group)
    &&& opt_text_of(v, "group_id"@) == Some(opt_view(e.group_id))
    &&& bool_of(v, "showcase"@) == Some(e.showcase)
    &&& bool_of(v, "only_show_if_degraded"@) == Some(e.only_show_if_degraded)
}

/// `v` is a status document.
pub open spec fn root_ok(v: JsonV) -> bool {
    &&& field_of(v, "page"@) matches Some(p) && page_ok(p)
    &&& field_of(v, "components"@) matches Some(JsonV::Array(items)) && forall|i: int|
        0 <= i < items.len() ==> entry_ok(#[trigger] items[i])
}

/// `r` holds what the status document `v` says, components in order.
pub open spec fn root_matches(r: StatusRoot, v: JsonV) -> bool {
    &&& field_of(v, "page"@) matches Some(p) && page_matches(r.page, p)
    &&& field_of(v, "components"@) matches Some(JsonV::Array(items)) && items.len()
        == r.components@.len() && forall|i: int|
        0 <= i < items.len() ==> entry_matches(#[trigger] r.components@[i], items[i])
}

fn missing(field: &str) -> (r: ShapeError) {
    ShapeError { field: field.to_owned() }
}

/// Member `key` of `v`, where it is a string.
fn text_field(v: &Json, key: &str) -> (r: Result<String, ShapeError>)
    ensures
        match r {
            Ok(s) => text_of(v@, key@) == Some(s@),
            Err(_) => text_of(v@, key@) is None,
        },
{
    match v.get(key) {
        Some(x) => match x.as_str() {
            Some(s) => Ok(s.clone()),
            None => Err(missing(key)),
        },
        None => Err(missing(key)),
    }
}

/// Member `key` of `v`, where it is absent, null or a string.
fn opt_text_field(v: &Json, key: &str) -> (r: Result<Option<String>, ShapeError>)
    ensures
        match r {
            Ok(s) => opt_text_of(v@, key@) == Some(opt_view(s)),
            Err(_) => opt_text_of(v@, key@) is None,
        },
{
    match v.get(key) {
        Some(Json::Null) => Ok(None),
        Some(Json::Str(s)) => Ok(Some(s.clone())),
        Some(_) => Err(missing(key)),
        None => Ok(None),
    }
}

/// Member `key` of `v`, where it is an integer that fits in `i64`.
fn int_field(v: &Json, key: &str) -> (r: Result<i64, ShapeError>)
    ensures
        match r {
            Ok(n) => int_of(v@, key@) == Some(n),
            Err(_) => int_of(v@, key@) is None,
        },
{
    match v.get(key) {
        Some(Json::Number(JsonNumber::PosInt(n))) => if *n <= i64::MAX as u64 {
            Ok(*n as i64)
        } else {
            Err(missing(key))
        },
        Some(Json::Number(JsonNumber::NegInt(n))) => Ok(*n),
        _ => Err(missing(key)),
    }
}

/// Member `key` of `v`, where it is a boolean.
fn bool_field(v: &Json, key: &str) -> (r: Result<bool, ShapeError>)
    ensures
        match r {
            Ok(b) => bool_of(v@, key@) == Some(b),
            Err(_) => bool_of(v@, key@) is None,
        },
{
    match v.get(key) {
        Some(Json::Bool(b)) => Ok(*b),
        _ => Err(missing(key)),
    }
}

/// Reads the page description `v`.
pub fn parse_page(v: &Json) -> (r: Result<StatusPageInfo, ShapeError>)
    ensures
        match r {
            Ok(p) => page_matches(p, v@),
            Err(_) => !page_ok(v@),
        },
{
    let id = text_field(v, "id")?;
    let name = text_field(v, "name")?;
    let time_zone = text_field(v, "time_zone")?;
    let updated_at = text_field(v, "updated_at")?;
    let url = text_field(v, "url")?;
    Ok(StatusPageInfo { id, name, time_zone, updated_at, url })
}

/// Reads the component description `v`.
pub fn parse_entry(v: &Json) -> (r: Result<StatusEntry, ShapeError>)
    ensures
        match r {
            Ok(e) => entry_matches(e, v@),
            Err(_) => !entry_ok(v@),
        },
{
    let created_at = text_field(v, "created_at")?;
    let updated_at = text_field(v, "updated_at")?;
    let start_date = opt_text_field(v, "start_date")?;
    let description = opt_text_field(v, "description")?;
    let name = text_field(v, "name")?;
    let status = text_field(v, "status")?;
    let position = int_field(v, "position")?;
    let id = text_field(v, "id")?;
    let page_id = text_field(v, "page_id")?;
    let group = bool_field(v, "group")?;
    let group_id = opt_text_field(v, "group_id")?;
    let showcase = bool_field(v, "showcase")?;
    let only_show_if_degraded = bool_field(v, "only_show_if_degraded")?;
    Ok(
        StatusEntry {
            created_at,
            updated_at,
            start_date,
            description,
            name,
            status,
            position,
            id,
            page_id,
            group,
            group_id,
            showcase,
            only_show_if_degraded,
        },
    )
}

/// Reads a provider's status document from `v`. Members that the document
/// does not use are ignored.
pub fn parse_status_root(v: &Json) -> (r: Result<StatusRoot, ShapeError>)
    ensures
        match r {
            Ok(root) => root_matches(root, v@),
            Err(_) => !root_ok(v@),
        },
{
    let page = match v.get("page") {
        Some(p) => parse_page(p)?,
        None => {
            return Err(missing("page"));
        },
    };
    let items = match v.get("components") {
        Some(Json::Array(items)) => items,
        _ => {
            return Err(missing("components"));
        },
    };
    let ghost iv = view_items(items@);
    assert(field_of(v@, "components"@) == Some(JsonV::Array(iv)));
    let mut components: Vec<StatusEntry> = Vec::new();
    let mut i: usize = 0;
    while i < items.len()
        invariant
            i <= items.len(),
            iv == view_items(items@),
            field_of(v@, "components"@) == Some(JsonV::Array(iv)),
            page_matches(page, field_of(v@, "page"@)->0),
            field_of(v@, "page"@) is Some,
            components@.len() == i,
            forall|j: int| 0 <= j < i ==> entry_matches(#[trigger] components@[j], iv[j]),
        decreases items.len() - i,
    {
        assert(iv[i as int] == items@[i as int]@);
        match parse_entry(&items[i]) {
            Ok(e) => components.push(e),
            Err(err) => {
                assert(!entry_ok(iv[i as int]));
                proof {
                    if root_ok(v@) {
                        let items = field_of(v@, "components"@)->0->Array_0;
                        assert(items == iv);
                        assert(entry_ok(items[i as int]));
                    }
                }
                return Err(err);
            },
        }
        i = i + 1;
    }
    Ok(StatusRoot { page, components })
}

} // verus!
