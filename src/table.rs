use vstd::prelude::*;
use crate::json::{field_of, member_of, path_of, view_items, Json, JsonV};
use crate::status::{StatusEntry, StatusRoot};

verus! {

/// The cell that carries a date: `["datetime", {"iso": date}]`.
pub open spec fn datetime_cell(date: Seq<char>) -> JsonV {
    JsonV::Array(seq![JsonV::Str("datetime"@), JsonV::Object(seq![("iso"@, JsonV::Str(date))])])
}

/// The table row of one component: name, status, date.
pub open spec fn row_of(e: StatusEntry) -> JsonV {
    JsonV::Array(seq![JsonV::Str(e.name@), JsonV::Str(e.status@), datetime_cell(e.updated_at@)])
}

/// A column definition `[key, label]`.
pub open spec fn column(key: Seq<char>, label: Seq<char>) -> JsonV {
    JsonV::Array(seq![JsonV::Str(key), JsonV::Str(label)])
}

/// The table of the components `comps`, one row each, in order.
pub open spec fn table_of(comps: Seq<StatusEntry>) -> JsonV {
    JsonV::Object(
        seq![
            (
                "info"@,
                JsonV::Object(
                    seq![
                        ("type"@, JsonV::Str("table"@)),
                        (
                            "cols"@,
                            JsonV::Array(
                                seq![
                                    column("name"@, "Name"@),
                                    column("status"@, "Status"@),
                                    column("date"@, "Date"@),
                                ],
                            ),
                        ),
                    ],
                ),
            ),
            (
                "data"@,
                JsonV::Object(
                    seq![
                        (
                            "cols"@,
                            JsonV::Array(
                                seq![
                                    JsonV::Str("name"@),
                                    JsonV::Str("status"@),
                                    JsonV::Str("date"@),
                                ],
                            ),
                        ),
                        ("rows"@, JsonV::Array(table_rows(comps))),
                    ],
                ),
            ),
        ],
    )
}

fn column_json(key: &str, label: &str) -> (r: Json)
    ensures
        r@ == column(key@, label@),
{
    let mut r = Json::empty_array();
    r.push_item(Json::from_text(key));
    r.push_item(Json::from_text(label));
    assert(r@->Array_0 =~= column(key@, label@)->Array_0);
    r
}

/// The table row of `e`.
fn row_json(e: &StatusEntry) -> (r: Json)
    ensures
        r@ == row_of(*e),
{
    let mut iso = Json::empty_object();
    iso.push_member("iso", Json::from_string(e.updated_at.clone()));
    let mut date = Json::empty_array();
    date.push_item(Json::from_text("datetime"));
    date.push_item(iso);
    assert(date@->Array_0[1]->Object_0 =~= datetime_cell(e.updated_at@)->Array_0[1]->Object_0);
    assert(date@->Array_0 =~= datetime_cell(e.updated_at@)->Array_0);
    let mut r = Json::empty_array();
    r.push_item(Json::from_string(e.name.clone()));
    r.push_item(Json::from_string(e.status.clone()));
    r.push_item(date);
    assert(r@->Array_0 =~= row_of(*e)->Array_0);
    r
}

/// Turns a status document into a table with the columns name, status and
/// date, one row per component in the document's order. The date cell
/// carries the component's `updated_at` text unchanged; everything else in
/// the document is dropped.
pub fn status_root_to_headless_table(status: StatusRoot) -> (r: Json)
    ensures
        r@ == table_of(status.components@),
{
    let comps = &status.components;
    let mut rows: Vec<Json> = Vec::new();
    let mut i: usize = 0;
    while i < comps.len()
        invariant
            i <= comps.len(),
            rows@.len() == i,
            forall|j: int| 0 <= j < i ==> (#[trigger] rows@[j])@ == row_of(comps@[j]),
        decreases comps.len() - i,
    {
        rows.push(row_json(&comps[i]));
        i = i + 1;
    }
    assert(view_items(rows@) =~= table_rows(comps@));
    let ghost expected = table_of(comps@);

    let mut cols = Json::empty_array();
    cols.push_item(column_json("name", "Name"));
    cols.push_item(column_json("status", "Status"));
    cols.push_item(column_json("date", "Date"));
    let mut info = Json::empty_object();
    info.push_member("type", Json::from_text("table"));
    info.push_member("cols", cols);
    assert(info@->Object_0[1].1->Array_0 =~= expected->Object_0[0].1->Object_0[1].1->Array_0);
    assert(info@->Object_0 =~= expected->Object_0[0].1->Object_0);

    let mut keys = Json::empty_array();
    keys.push_item(Json::from_text("name"));
    keys.push_item(Json::from_text("status"));
    keys.push_item(Json::from_text("date"));
    let mut data = Json::empty_object();
    data.push_member("cols", keys);
    data.push_member("rows", Json::Array(rows));
    assert(data@->Object_0[0].1->Array_0 =~= expected->Object_0[1].1->Object_0[0].1->Array_0);
    assert(data@->Object_0 =~= expected->Object_0[1].1->Object_0);

    let mut r = Json::empty_object();
    r.push_member("info", info);
    r.push_member("data", data);
    assert(r@->Object_0 =~= expected->Object_0);
    r
}

/// The rows of the table of `comps`.
pub open spec fn table_rows(comps: Seq<StatusEntry>) -> Seq<JsonV> {
    comps.map_values(|e: StatusEntry| row_of(e))
}

/// The table has one row per component, in order: the component's name, its
/// status, and a datetime cell with its `updated_at` text.
pub proof fn lemma_table_rows(comps: Seq<StatusEntry>)
    ensures
        path_of(table_of(comps), seq!["data"@, "rows"@]) == Some(JsonV::Array(table_rows(comps))),
        table_rows(comps).len() == comps.len(),
        forall|i: int|
            0 <= i < comps.len() ==> #[trigger] table_rows(comps)[i] == JsonV::Array(
                seq![
                    JsonV::Str(comps[i].name@),
                    JsonV::Str(comps[i].status@),
                    JsonV::Array(
                        seq![
                            JsonV::Str("datetime"@),
                            JsonV::Object(seq![("iso"@, JsonV::Str(comps[i].updated_at@))]),
                        ],
                    ),
                ],
            ),
{
    reveal_strlit("data");
    reveal_strlit("info");
    reveal_strlit("cols");
    reveal_strlit("rows");
    let path = seq!["data"@, "rows"@];
    assert(path.drop_first() =~= seq!["rows"@]);
    assert(path.drop_first().drop_first() =~= Seq::<Seq<char>>::empty());
    let top = table_of(comps)->Object_0;
    assert(top.drop_first() =~= seq![top[1]]);
    assert("info"@[0] != "data"@[0]);
    assert(member_of(top.drop_first(), "data"@) == Some(top[1].1));
    assert(field_of(table_of(comps), "data"@) == Some(top[1].1));
    let data = top[1].1->Object_0;
    assert(data.drop_first() =~= seq![data[1]]);
    assert("cols"@[0] != "rows"@[0]);
    assert(member_of(data.drop_first(), "rows"@) == Some(data[1].1));
    assert(field_of(top[1].1, "rows"@) == Some(data[1].1));
    assert(path_of(data[1].1, path.drop_first().drop_first()) == Some(data[1].1));
    assert(path_of(top[1].1, path.drop_first()) == Some(data[1].1));
}

} // verus!
