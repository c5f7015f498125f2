use service_status::dispatch::{
    get_info, handle_request, handler, lookup_reply, res_error, status_from_response,
    status_request_url, GetStatusError, Outcome, Response, Step,
};
use service_status::json::{Json, JsonNumber};
use service_status::registry::Service;

fn s(t: &str) -> Json {
    Json::Str(t.to_string())
}

fn obj(members: Vec<(&str, Json)>) -> Json {
    Json::Object(members.into_iter().map(|(k, v)| (k.to_string(), v)).collect())
}

fn request(op: &str, info: Json) -> Json {
    obj(vec![("action", s("request")), ("opName", s(op)), ("info", info)])
}

fn failure(code: &str, reason: &str) -> Json {
    obj(vec![("ok", Json::Bool(false)), ("code", s(code)), ("reason", s(reason))])
}

fn responds(outcome: Outcome) -> Response {
    match outcome {
        Outcome::Respond(r) => r,
        Outcome::Lookup(name) => panic!("unexpected lookup of {name}"),
    }
}

fn looks_up(outcome: Outcome) -> String {
    match outcome {
        Outcome::Lookup(name) => name,
        Outcome::Respond(r) => panic!("unexpected answer {:?}", r),
    }
}

fn mocked_document() -> Json {
    obj(vec![
        (
            "page",
            obj(vec![
                ("id", s("kctbh9vrtdwd")),
                ("name", s("GitHub")),
                ("time_zone", s("Etc/UTC")),
                ("updated_at", s("2024-01-01T00:00:00Z")),
                ("url", s("https://www.githubstatus.com")),
            ]),
        ),
        (
            "components",
            Json::Array(vec![obj(vec![
                ("created_at", s("2017-01-31T20:05:05.370Z")),
                ("updated_at", s("2024-01-01T00:00:00Z")),
                ("start_date", Json::Null),
                ("description", Json::Null),
                ("name", s("API")),
                ("status", s("operational")),
                ("position", Json::Number(JsonNumber::PosInt(2))),
                ("id", s("brv1bkgrwx7q")),
                ("page_id", s("kctbh9vrtdwd")),
                ("group", Json::Bool(false)),
                ("group_id", Json::Null),
                ("showcase", Json::Bool(false)),
                ("only_show_if_degraded", Json::Bool(false)),
            ])]),
        ),
    ])
}

#[test]
fn info_action_lists_every_key() {
    let r = responds(handler(&obj(vec![("action", s("info"))])));
    assert_eq!(r.status, 200);
    assert_eq!(r.body, get_info());
    let keys: Vec<Json> = Service::to_keys().into_iter().map(Json::Str).collect();
    let allowed = r
        .body
        .get("tools")
        .and_then(|t| t.get("getServiceStatus"))
        .and_then(|t| t.get("schema"))
        .and_then(|t| t.get("fields"))
        .and_then(|t| t.get("service"))
        .and_then(|t| t.get("enum"));
    assert_eq!(allowed, Some(&Json::Array(keys)));
    assert_eq!(r.body.get("ns"), Some(&s("ext-rs-service-status")));
}

#[test]
fn enum_services_lists_entries() {
    let r = responds(handler(&request("getEnumServices", obj(vec![]))));
    assert_eq!(r.status, 200);
    let entries: Vec<Json> = Service::to_entries()
        .into_iter()
        .map(|(k, l)| Json::Array(vec![Json::Str(k), Json::Str(l)]))
        .collect();
    assert_eq!(r.body, obj(vec![("info", Json::Null), ("entries", Json::Array(entries))]));
}

#[test]
fn status_without_service_uses_github() {
    let name = looks_up(handler(&request("getServiceStatus", obj(vec![]))));
    assert_eq!(name, "github");
    let url = status_request_url(&name).unwrap();
    assert_eq!(url, "https://www.githubstatus.com/api/v2/components.json");
    let reply = lookup_reply(status_from_response(Ok(mocked_document())));
    assert_eq!(reply.status, 200);
    let rows = reply.body.get("data").and_then(|d| d.get("rows")).unwrap();
    let expected_row = Json::Array(vec![
        s("API"),
        s("operational"),
        Json::Array(vec![s("datetime"), obj(vec![("iso", s("2024-01-01T00:00:00Z"))])]),
    ]);
    assert_eq!(rows, &Json::Array(vec![expected_row]));
}

#[test]
fn status_with_null_service_uses_github() {
    let name = looks_up(handler(&request("getServiceStatus", obj(vec![("service", Json::Null)]))));
    assert_eq!(name, "github");
}

#[test]
fn unknown_service_is_bad_response() {
    let name = looks_up(handler(&request(
        "getServiceStatus",
        obj(vec![("service", s("not-a-real-service"))]),
    )));
    assert_eq!(name, "not-a-real-service");
    let resolved = status_request_url(&name);
    match &resolved {
        Err(GetStatusError::UnknownService { name }) => assert_eq!(name, "not-a-real-service"),
        other => panic!("expected UnknownService, got {:?}", other),
    }
    let reply = lookup_reply(resolved.map(|_| unreachable!()));
    assert_eq!(reply.status, 200);
    assert_eq!(reply.body, failure("BadResponse", "Bad Response"));
}

#[test]
fn transport_and_shape_failures_are_bad_response() {
    let fetched = status_from_response(Err("connection refused".to_string()));
    assert_eq!(
        fetched,
        Err(GetStatusError::RequestError { message: "connection refused".to_string() })
    );
    let reply = lookup_reply(fetched);
    assert_eq!(reply, Response { status: 200, body: failure("BadResponse", "Bad Response") });

    let parsed = status_from_response(Ok(obj(vec![("page", Json::Null)])));
    assert!(matches!(parsed, Err(GetStatusError::ParseError { .. })));
    assert_eq!(lookup_reply(parsed).body, failure("BadResponse", "Bad Response"));
}

#[test]
fn array_body_is_bad_body_format() {
    let r = responds(handler(&Json::Array(vec![s("action")])));
    assert_eq!(r.status, 400);
    assert_eq!(r.body, failure("BadBodyFormat", "Bad Request Body Format"));
}

#[test]
fn envelope_errors_are_client_errors() {
    let r = responds(handler(&obj(vec![("opName", s("x"))])));
    assert_eq!((r.status, r.body), (400, failure("ActionNotFound", "Bad Request Body Format (No Action)")));
    let r = responds(handler(&obj(vec![("action", Json::Bool(true))])));
    assert_eq!((r.status, r.body), (400, failure("ActionNotFound", "Bad Request Body Format (No Action)")));
    let r = responds(handler(&obj(vec![("action", s("Info"))])));
    assert_eq!((r.status, r.body), (400, failure("BadAction", "Bad Action")));
    let r = responds(handler(&obj(vec![("action", s("request")), ("info", obj(vec![]))])));
    assert_eq!((r.status, r.body), (400, failure("BadOpName", "Operation Name Not Defined")));
    let r = responds(handler(&obj(vec![("action", s("request")), ("opName", s("getEnumServices"))])));
    assert_eq!((r.status, r.body), (400, failure("BadOpInfo", "Operation Info Not Found")));
}

#[test]
fn operation_errors_are_answered_with_ok_status() {
    let r = responds(handler(&request("noSuchOp", obj(vec![]))));
    assert_eq!((r.status, r.body), (200, failure("UnknownOpName", "Unknown Operation Name")));
    let bad_info = request("getServiceStatus", obj(vec![("service", Json::Number(JsonNumber::PosInt(5)))]));
    let r = responds(handler(&bad_info));
    assert_eq!((r.status, r.body), (200, failure("BadReqInfoFormat", "Bad Request Info Format")));
    let r = responds(handler(&request("getServiceStatus", s("github"))));
    assert_eq!((r.status, r.body), (200, failure("BadReqInfoFormat", "Bad Request Info Format")));
}

#[test]
fn context_action_rewrites_chosen_id() {
    let info = obj(vec![("info", obj(vec![("service", s("twilio"))]))]);
    let step = handle_request("serviceStatusForEnumServiceId", &info);
    let expected = obj(vec![
        ("name", s("getServiceStatus")),
        ("args", obj(vec![("service", s("twilio"))])),
    ]);
    assert_eq!(step, Step::Reply(expected));
}

#[test]
fn context_action_defaults_to_github() {
    let expected = obj(vec![
        ("name", s("getServiceStatus")),
        ("args", obj(vec![("service", s("github"))])),
    ]);
    assert_eq!(handle_request("serviceStatusForEnumServiceId", &obj(vec![])), Step::Reply(expected.deep_clone()));
    let no_service = obj(vec![("info", obj(vec![("other", s("x"))]))]);
    assert_eq!(handle_request("serviceStatusForEnumServiceId", &no_service), Step::Reply(expected));
}

#[test]
fn res_error_builds_failure_body() {
    assert_eq!(res_error("X", "Y"), failure("X", "Y"));
}
