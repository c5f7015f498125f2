use service_status::json::{Json, JsonNumber};
use service_status::status::{parse_status_root, StatusEntry};
use service_status::table::status_root_to_headless_table;

fn s(t: &str) -> Json {
    Json::Str(t.to_string())
}

fn obj(members: Vec<(&str, Json)>) -> Json {
    Json::Object(members.into_iter().map(|(k, v)| (k.to_string(), v)).collect())
}

fn component(name: &str, status: &str, updated: &str) -> Json {
    obj(vec![
        ("created_at", s("2023-01-01T00:00:00Z")),
        ("updated_at", s(updated)),
        ("start_date", Json::Null),
        ("description", s("desc")),
        ("name", s(name)),
        ("status", s(status)),
        ("position", Json::Number(JsonNumber::PosInt(1))),
        ("id", s("c1")),
        ("page_id", s("pg1")),
        ("group", Json::Bool(false)),
        ("showcase", Json::Bool(true)),
        ("only_show_if_degraded", Json::Bool(false)),
    ])
}

fn document(components: Vec<Json>) -> Json {
    obj(vec![
        (
            "page",
            obj(vec![
                ("id", s("pg1")),
                ("name", s("GitHub")),
                ("time_zone", s("Etc/UTC")),
                ("updated_at", s("2024-01-01T00:00:00Z")),
                ("url", s("https://www.githubstatus.com")),
                ("extra", Json::Number(JsonNumber::Float("1.5".to_string()))),
            ]),
        ),
        ("components", Json::Array(components)),
    ])
}

fn datetime(iso: &str) -> Json {
    Json::Array(vec![s("datetime"), obj(vec![("iso", s(iso))])])
}

fn rows_of(table: &Json) -> Vec<Json> {
    match table.get("data").and_then(|d| d.get("rows")) {
        Some(Json::Array(rows)) => rows.iter().map(|r| r.deep_clone()).collect(),
        other => panic!("no rows: {:?}", other),
    }
}

#[test]
fn parse_reads_every_field() {
    let doc = document(vec![component("API", "operational", "2024-01-01T00:00:00Z")]);
    let root = parse_status_root(&doc).unwrap();
    assert_eq!(root.page.name, "GitHub");
    assert_eq!(root.page.time_zone, "Etc/UTC");
    assert_eq!(root.components.len(), 1);
    let e: &StatusEntry = &root.components[0];
    assert_eq!(e.name, "API");
    assert_eq!(e.status, "operational");
    assert_eq!(e.updated_at, "2024-01-01T00:00:00Z");
    assert_eq!(e.start_date, None);
    assert_eq!(e.description, Some("desc".to_string()));
    assert_eq!(e.group_id, None);
    assert_eq!(e.position, 1);
    assert!(!e.group);
    assert!(e.showcase);
}

#[test]
fn parse_rejects_wrong_shapes() {
    let mut bad = component("API", "operational", "x");
    if let Json::Object(m) = &mut bad {
        m.retain(|(k, _)| k != "status");
    }
    let err = parse_status_root(&document(vec![bad])).unwrap_err();
    assert_eq!(err.field, "status");

    let mut float_pos = component("API", "operational", "x");
    if let Json::Object(m) = &mut float_pos {
        for (k, v) in m.iter_mut() {
            if k == "position" {
                *v = Json::Number(JsonNumber::Float("1.5".to_string()));
            }
        }
    }
    assert!(parse_status_root(&document(vec![float_pos])).is_err());

    let mut huge = component("API", "operational", "x");
    if let Json::Object(m) = &mut huge {
        for (k, v) in m.iter_mut() {
            if k == "position" {
                *v = Json::Number(JsonNumber::PosInt(u64::MAX));
            }
        }
    }
    assert!(parse_status_root(&document(vec![huge])).is_err());

    assert!(parse_status_root(&Json::Array(vec![])).is_err());
    assert!(parse_status_root(&obj(vec![("components", Json::Array(vec![]))])).is_err());
}

#[test]
fn parse_accepts_negative_position_and_group_id() {
    let mut c = component("CDN", "major_outage", "x");
    if let Json::Object(m) = &mut c {
        for (k, v) in m.iter_mut() {
            if k == "position" {
                *v = Json::Number(JsonNumber::NegInt(-3));
            }
        }
        m.push(("group_id".to_string(), s("g7")));
    }
    let root = parse_status_root(&document(vec![c])).unwrap();
    assert_eq!(root.components[0].position, -3);
    assert_eq!(root.components[0].group_id, Some("g7".to_string()));
}

#[test]
fn table_keeps_order_and_length() {
    let doc = document(vec![
        component("API", "operational", "2024-01-01T00:00:00Z"),
        component("Git", "degraded_performance", "2024-02-02T10:00:00+02:00"),
        component("Pages", "partial_outage", "2024-03-03T00:00:00Z"),
    ]);
    let table = status_root_to_headless_table(parse_status_root(&doc).unwrap());
    let rows = rows_of(&table);
    assert_eq!(rows.len(), 3);
    assert_eq!(
        rows[1],
        Json::Array(vec![
            s("Git"),
            s("degraded_performance"),
            datetime("2024-02-02T10:00:00+02:00")
        ])
    );
    assert_eq!(rows[2], Json::Array(vec![s("Pages"), s("partial_outage"), datetime("2024-03-03T00:00:00Z")]));
}

#[test]
fn table_columns_and_empty_document() {
    let table = status_root_to_headless_table(parse_status_root(&document(vec![])).unwrap());
    assert_eq!(rows_of(&table).len(), 0);
    let info = table.get("info").unwrap();
    assert_eq!(info.get("type"), Some(&s("table")));
    assert_eq!(
        info.get("cols"),
        Some(&Json::Array(vec![
            Json::Array(vec![s("name"), s("Name")]),
            Json::Array(vec![s("status"), s("Status")]),
            Json::Array(vec![s("date"), s("Date")]),
        ]))
    );
    assert_eq!(
        table.get("data").unwrap().get("cols"),
        Some(&Json::Array(vec![s("name"), s("status"), s("date")]))
    );
}

#[test]
fn deep_clone_copies_nested_values() {
    let doc = document(vec![component("API", "operational", "t")]);
    assert_eq!(doc.deep_clone(), doc);
}
