use vstd::prelude::*;
use vstd::string::*;
use crate::json::{field_of, lemma_member_at, lemma_path_step, path_of, view_items, Json, JsonV};
use crate::registry::{entry_list, key_list, url_for_host, Service, DEFAULT_SERVICE};
use crate::status::{opt_text_of, parse_status_root, text_of, ShapeError, StatusRoot};
use crate::table::{status_root_to_headless_table, table_of};

verus! {

/// The failures a caller can be told of, each with its wire code and reason.
#[derive(Clone, Copy, Debug, PartialEq, Eq, Structural)]
pub enum ErrorKind {
    BadBodyFormat,
    ActionNotFound,
    BadAction,
    BadOpName,
    BadOpInfo,
    BadReqInfoFormat,
    UnknownOpName,
    BadResponse,
}

impl ErrorKind {
    pub open spec fn code(self) -> Seq<char> {
        match self {
            ErrorKind::BadBodyFormat => "BadBodyFormat"@,
            ErrorKind::ActionNotFound => "ActionNotFound"@,
            ErrorKind::BadAction => "BadAction"@,
            ErrorKind::BadOpName => "BadOpName"@,
            ErrorKind::BadOpInfo => "BadOpInfo"@,
            ErrorKind::BadReqInfoFormat => "BadReqInfoFormat"@,
            ErrorKind::UnknownOpName => "UnknownOpName"@,
            ErrorKind::BadResponse => "BadResponse"@,
        }
    }

    pub open spec fn reason(self) -> Seq<char> {
        match self {
            ErrorKind::BadBodyFormat => "Bad Request Body Format"@,
            ErrorKind::ActionNotFound => "Bad Request Body Format (No Action)"@,
            ErrorKind::BadAction => "Bad Action"@,
            ErrorKind::BadOpName => "Operation Name Not Defined"@,
            ErrorKind::BadOpInfo => "Operation Info Not Found"@,
            ErrorKind::BadReqInfoFormat => "Bad Request Info Format"@,
            ErrorKind::UnknownOpName => "Unknown Operation Name"@,
            ErrorKind::BadResponse => "Bad Response"@,
        }
    }

    /// The wire code of this failure.
    pub fn to_code(&self) -> (r: &'static str)
        ensures
            r@ == self.code(),
    {
        match self {
            ErrorKind::BadBodyFormat => "BadBodyFormat",
            ErrorKind::ActionNotFound => "ActionNotFound",
            ErrorKind::BadAction => "BadAction",
            ErrorKind::BadOpName => "BadOpName",
            ErrorKind::BadOpInfo => "BadOpInfo",
            ErrorKind::BadReqInfoFormat => "BadReqInfoFormat",
            ErrorKind::UnknownOpName => "UnknownOpName",
            ErrorKind::BadResponse => "BadResponse",
        }
    }

    /// The text that explains this failure.
    pub fn to_reason(&self) -> (r: &'static str)
        ensures
            r@ == self.reason(),
    {
        match self {
            ErrorKind::BadBodyFormat => "Bad Request Body Format",
            ErrorKind::ActionNotFound => "Bad Request Body Format (No Action)",
            ErrorKind::BadAction => "Bad Action",
            ErrorKind::BadOpName => "Operation Name Not Defined",
            ErrorKind::BadOpInfo => "Operation Info Not Found",
            ErrorKind::BadReqInfoFormat => "Bad Request Info Format",
            ErrorKind::UnknownOpName => "Unknown Operation Name",
            ErrorKind::BadResponse => "Bad Response",
        }
    }
}

/// Name of the one operation offered.
pub const FN_GET_SERVICE_STATUS: &'static str = "getServiceStatus";

/// Name of the operation that lists the services.
pub const H_GET_ENUM_SERVICES: &'static str = "getEnumServices";

/// Name of the operation that turns a chosen service id into a call.
pub const H_SERVICE_STATUS_FOR_ENUM_SERVICE_ID: &'static str = "serviceStatusForEnumServiceId";

/// HTTP status of an answer that the protocol carries in its body.
pub const STATUS_OK: u16 = 200;

/// HTTP status of a malformed envelope.
pub const STATUS_BAD_REQUEST: u16 = 400;

/// The failure body `{"ok": false, "code": code, "reason": reason}`.
pub open spec fn res_error_v(code: Seq<char>, reason: Seq<char>) -> JsonV {
    JsonV::Object(
        seq![("ok"@, JsonV::Bool(false)), ("code"@, JsonV::Str(code)), ("reason"@, JsonV::Str(reason))],
    )
}

pub open spec fn error_v(kind: ErrorKind) -> JsonV {
    res_error_v(kind.code(), kind.reason())
}

/// The service keys as a JSON array of strings.
pub open spec fn keys_v() -> JsonV {
    JsonV::Array(key_list().map_values(|k: Seq<char>| JsonV::Str(k)))
}

/// The (key, display name) entries as a JSON array of pairs.
pub open spec fn entries_v() -> JsonV {
    JsonV::Array(
        entry_list().map_values(
            |p: (Seq<char>, Seq<char>)| JsonV::Array(seq![JsonV::Str(p.0), JsonV::Str(p.1)]),
        ),
    )
}

/// The answer of the enum-value discovery: `{"info": null, "entries": [...]}`.
pub open spec fn enum_services_v() -> JsonV {
    JsonV::Object(seq![("info"@, JsonV::Null), ("entries"@, entries_v())])
}

/// A call of the status lookup with `service` as its argument.
pub open spec fn invocation_v(service: JsonV) -> JsonV {
    JsonV::Object(
        seq![
            ("name"@, JsonV::Str("getServiceStatus"@)),
            ("args"@, JsonV::Object(seq![("service"@, service)])),
        ],
    )
}

/// Builds `{"ok": false, "code": code, "reason": reason}`.
pub fn res_error(code: &str, reason: &str) -> (r: Json)
    ensures
        r@ == res_error_v(code@, reason@),
{
    let mut r = Json::empty_object();
    r.push_member("ok", Json::Bool(false));
    r.push_member("code", Json::from_text(code));
    r.push_member("reason", Json::from_text(reason));
    assert(r@->Object_0 =~= res_error_v(code@, reason@)->Object_0);
    r
}

/// The failure body of `kind`.
pub fn error_body(kind: ErrorKind) -> (r: Json)
    ensures
        r@ == error_v(kind),
{
    res_error(kind.to_code(), kind.to_reason())
}

/// The service keys, in catalogue order, as a JSON array.
pub fn keys_json() -> (r: Json)
    ensures
        r@ == keys_v(),
{
    let keys = Service::to_keys();
    let ghost kv = keys@.map_values(|s: String| s@);
    let mut out: Vec<Json> = Vec::new();
    let mut i: usize = 0;
    while i < keys.len()
        invariant
            i <= keys.len(),
            out@.len() == i,
            kv == keys@.map_values(|s: String| s@),
            forall|j: int| 0 <= j < i ==> (#[trigger] out@[j])@ == JsonV::Str(keys@[j]@),
        decreases keys.len() - i,
    {
        out.push(Json::from_string(keys[i].clone()));
        i = i + 1;
    }
    assert(view_items(out@) =~= key_list().map_values(|k: Seq<char>| JsonV::Str(k)));
    Json::Array(out)
}

/// The (key, display name) entries, in catalogue order, as a JSON array of
/// pairs.
pub fn entries_json() -> (r: Json)
    ensures
        r@ == entries_v(),
{
    let entries = Service::to_entries();
    let ghost ev = entries@.map_values(|p: (String, String)| (p.0@, p.1@));
    let mut out: Vec<Json> = Vec::new();
    let mut i: usize = 0;
    while i < entries.len()
        invariant
            i <= entries.len(),
            out@.len() == i,
            ev == entries@.map_values(|p: (String, String)| (p.0@, p.1@)),
            forall|j: int|
                0 <= j < i ==> (#[trigger] out@[j])@ == JsonV::Array(
                    seq![JsonV::Str(entries@[j].0@), JsonV::Str(entries@[j].1@)],
                ),
        decreases entries.len() - i,
    {
        let mut pair = Json::empty_array();
        pair.push_item(Json::from_string(entries[i].0.clone()));
        pair.push_item(Json::from_string(entries[i].1.clone()));
        assert(pair@->Array_0 =~= seq![JsonV::Str(entries@[i as int].0@), JsonV::Str(entries@[i as int].1@)]);
        out.push(pair);
        i = i + 1;
    }
    assert(view_items(out@) =~= entry_list().map_values(
        |p: (Seq<char>, Seq<char>)| JsonV::Array(seq![JsonV::Str(p.0), JsonV::Str(p.1)]),
    ));
    Json::Array(out)
}

/// Tag metadata: values of the `ServiceId` tag are listed by
/// `getEnumServices`.
pub open spec fn tag_values_v() -> JsonV {
    JsonV::Object(
        seq![
            (
                "ServiceId"@,
                JsonV::Object(
                    seq![
                        ("icon"@, JsonV::Str("server"@)),
                        ("loadEntriesHandlerId"@, JsonV::Str("getEnumServices"@)),
                    ],
                ),
            ),
        ],
    )
}

/// The `service` parameter: a string, one of the service keys.
pub open spec fn service_param_v() -> JsonV {
    JsonV::Object(
        seq![
            ("type"@, JsonV::Str("string"@)),
            ("enum"@, keys_v()),
            (
                "description"@,
                JsonV::Str("the service to display the API status, if unknown default to github"@),
            ),
        ],
    )
}

/// How a call is shown: a prefix, and the argument as a `ServiceId`.
pub open spec fn ui_v() -> JsonV {
    JsonV::Object(
        seq![
            ("prefix"@, JsonV::Str("Service Status"@)),
            (
                "args"@,
                JsonV::Object(
                    seq![
                        (
                            "service"@,
                            JsonV::Object(
                                seq![
                                    ("prefix"@, JsonV::Str("For"@)),
                                    ("dtypeName"@, JsonV::Str("ServiceId"@)),
                                ],
                            ),
                        ),
                    ],
                ),
            ),
        ],
    )
}

/// A chosen `ServiceId` is turned into a call by
/// `serviceStatusForEnumServiceId`.
pub open spec fn context_actions_v() -> JsonV {
    JsonV::Array(
        seq![
            JsonV::Object(
                seq![
                    ("for"@, JsonV::Object(seq![("name"@, JsonV::Str("ServiceId"@))])),
                    ("handler"@, JsonV::Str("serviceStatusForEnumServiceId"@)),
                ],
            ),
        ],
    )
}

pub open spec fn examples_v() -> JsonV {
    JsonV::Array(
        seq![
            JsonV::Str("Show status for snowflake"@),
            JsonV::Str("Cloudflare service status"@),
            JsonV::Str("Is twilio up?"@),
        ],
    )
}

/// The description of `getServiceStatus`.
pub open spec fn tool_v() -> JsonV {
    JsonV::Object(
        seq![
            ("title"@, JsonV::Str("Get Service Status"@)),
            (
                "description"@,
                JsonV::Str("Check service API status to know if a service is up or down"@),
            ),
            (
                "schema"@,
                JsonV::Object(
                    seq![("fields"@, JsonV::Object(seq![("service"@, service_param_v())]))],
                ),
            ),
            ("ui"@, ui_v()),
            ("contextActions"@, context_actions_v()),
            ("examples"@, examples_v()),
        ],
    )
}

/// The capability descriptor: the one operation offered, its parameter and
/// the services it accepts, how to show it, and example prompts.
pub open spec fn info_v() -> JsonV {
    JsonV::Object(
        seq![
            ("ns"@, JsonV::Str("ext-rs-service-status"@)),
            ("title"@, JsonV::Str("Service Status"@)),
            ("tagValues"@, tag_values_v()),
            ("tools"@, JsonV::Object(seq![("getServiceStatus"@, tool_v())])),
        ],
    )
}

/// An object with the single member `key: value`.
fn single(key: &str, value: Json) -> (r: Json)
    ensures
        r@ == JsonV::Object(seq![(key@, value@)]),
{
    let mut r = Json::empty_object();
    r.push_member(key, value);
    assert(r@->Object_0 =~= seq![(key@, value@)]);
    r
}

fn tag_values() -> (r: Json)
    ensures
        r@ == tag_values_v(),
{
    let mut tag = Json::empty_object();
    tag.push_member("icon", Json::from_text("server"));
    tag.push_member("loadEntriesHandlerId", Json::from_text(H_GET_ENUM_SERVICES));
    assert(tag@->Object_0 =~= tag_values_v()->Object_0[0].1->Object_0);
    single("ServiceId", tag)
}

fn service_param() -> (r: Json)
    ensures
        r@ == service_param_v(),
{
    let mut r = Json::empty_object();
    r.push_member("type", Json::from_text("string"));
    r.push_member("enum", keys_json());
    r.push_member(
        "description",
        Json::from_text("the service to display the API status, if unknown default to github"),
    );
    assert(r@->Object_0 =~= service_param_v()->Object_0);
    r
}

fn ui() -> (r: Json)
    ensures
        r@ == ui_v(),
{
    let mut arg = Json::empty_object();
    arg.push_member("prefix", Json::from_text("For"));
    arg.push_member("dtypeName", Json::from_text("ServiceId"));
    let ghost arg_v = ui_v()->Object_0[1].1->Object_0[0].1;
    assert(arg@->Object_0 =~= arg_v->Object_0);
    let mut r = Json::empty_object();
    r.push_member("prefix", Json::from_text("Service Status"));
    r.push_member("args", single("service", arg));
    assert(r@->Object_0 =~= ui_v()->Object_0);
    r
}

fn context_actions() -> (r: Json)
    ensures
        r@ == context_actions_v(),
{
    let mut action = Json::empty_object();
    action.push_member("for", single("name", Json::from_text("ServiceId")));
    action.push_member("handler", Json::from_text(H_SERVICE_STATUS_FOR_ENUM_SERVICE_ID));
    assert(action@->Object_0 =~= context_actions_v()->Array_0[0]->Object_0);
    let mut r = Json::empty_array();
    r.push_item(action);
    assert(r@->Array_0 =~= context_actions_v()->Array_0);
    r
}

fn examples() -> (r: Json)
    ensures
        r@ == examples_v(),
{
    let mut r = Json::empty_array();
    r.push_item(Json::from_text("Show status for snowflake"));
    r.push_item(Json::from_text("Cloudflare service status"));
    r.push_item(Json::from_text("Is twilio up?"));
    assert(r@->Array_0 =~= examples_v()->Array_0);
    r
}

fn tool() -> (r: Json)
    ensures
        r@ == tool_v(),
{
    let mut r = Json::empty_object();
    r.push_member("title", Json::from_text("Get Service Status"));
    r.push_member(
        "description",
        Json::from_text("Check service API status to know if a service is up or down"),
    );
    r.push_member("schema", single("fields", single("service", service_param())));
    r.push_member("ui", ui());
    r.push_member("contextActions", context_actions());
    r.push_member("examples", examples());
    assert(r@->Object_0 =~= tool_v()->Object_0);
    r
}

/// Builds the capability descriptor.
pub fn get_info() -> (r: Json)
    ensures
        r@ == info_v(),
{
    let mut r = Json::empty_object();
    r.push_member("ns", Json::from_text("ext-rs-service-status"));
    r.push_member("title", Json::from_text("Service Status"));
    r.push_member("tagValues", tag_values());
    r.push_member("tools", single(FN_GET_SERVICE_STATUS, tool()));
    assert(r@->Object_0 =~= info_v()->Object_0);
    r
}

/// What an operation asks for: an answer now, or a status lookup of the
/// named service.
#[derive(Debug, PartialEq, Eq)]
pub enum Step {
    Reply(Json),
    Lookup(String),
}

pub ghost enum StepV {
    Reply(JsonV),
    Lookup(Seq<char>),
}

impl Step {
    pub open spec fn view(&self) -> StepV {
        match self {
            Step::Reply(j) => StepV::Reply(j@),
            Step::Lookup(s) => StepV::Lookup(s@),
        }
    }
}

/// An answer: transport status and JSON body.
#[derive(Debug, PartialEq, Eq)]
pub struct Response {
    pub status: u16,
    pub body: Json,
}

/// What the handling of an envelope comes to: an answer now, or a status
/// lookup of the named service whose answer goes out with status 200.
#[derive(Debug, PartialEq, Eq)]
pub enum Outcome {
    Respond(Response),
    Lookup(String),
}

pub ghost enum OutcomeV {
    Respond(u16, JsonV),
    Lookup(Seq<char>),
}

impl Outcome {
    pub open spec fn view(&self) -> OutcomeV {
        match self {
            Outcome::Respond(r) => OutcomeV::Respond(r.status, r.body@),
            Outcome::Lookup(s) => OutcomeV::Lookup(s@),
        }
    }
}

/// The step that operation `op` asks for on the argument `info`.
pub open spec fn request_v(op: Seq<char>, info: JsonV) -> StepV {
    if op == "getServiceStatus"@ {
        if info is Object && opt_text_of(info, "service"@) is Some {
            match opt_text_of(info, "service"@)->0 {
                Some(name) => StepV::Lookup(name),
                None => StepV::Lookup(DEFAULT_SERVICE.key()),
            }
        } else {
            StepV::Reply(error_v(ErrorKind::BadReqInfoFormat))
        }
    } else if op == "serviceStatusForEnumServiceId"@ {
        match path_of(info, seq!["info"@, "service"@]) {
            Some(id) => StepV::Reply(invocation_v(id)),
            None => StepV::Reply(invocation_v(JsonV::Str(DEFAULT_SERVICE.key()))),
        }
    } else if op == "getEnumServices"@ {
        StepV::Reply(enum_services_v())
    } else {
        StepV::Reply(error_v(ErrorKind::UnknownOpName))
    }
}

pub open spec fn fail_v(kind: ErrorKind) -> OutcomeV {
    OutcomeV::Respond(STATUS_BAD_REQUEST, error_v(kind))
}

/// What the envelope `v` comes to.
pub open spec fn handler_v(v: JsonV) -> OutcomeV {
    if !(v is Object) {
        fail_v(ErrorKind::BadBodyFormat)
    } else {
        match text_of(v, "action"@) {
            None => fail_v(ErrorKind::ActionNotFound),
            Some(action) => if action == "request"@ {
                match text_of(v, "opName"@) {
                    None => fail_v(ErrorKind::BadOpName),
                    Some(op) => match field_of(v, "info"@) {
                        None => fail_v(ErrorKind::BadOpInfo),
                        Some(info) => match request_v(op, info) {
                            StepV::Reply(j) => OutcomeV::Respond(STATUS_OK, j),
                            StepV::Lookup(name) => OutcomeV::Lookup(name),
                        },
                    },
                }
            } else if action == "info"@ {
                OutcomeV::Respond(STATUS_OK, info_v())
            } else {
                fail_v(ErrorKind::BadAction)
            },
        }
    }
}

fn same_text(a: &str, b: &str) -> (r: bool)
    ensures
        r == (a@ == b@),
{
    a.to_owned() == b.to_owned()
}

/// `{"name": "getServiceStatus", "args": {"service": service}}`.
fn invocation(service: Json) -> (r: Json)
    ensures
        r@ == invocation_v(service@),
{
    let ghost sv = service@;
    let mut r = Json::empty_object();
    r.push_member("name", Json::from_text(FN_GET_SERVICE_STATUS));
    r.push_member("args", single("service", service));
    assert(r@->Object_0 =~= invocation_v(sv)->Object_0);
    r
}

/// Runs operation `op_name` on its argument `req_info`.
///
/// `getServiceStatus` reads `{"service": name}` (absent or null: the default
/// service) and asks for a lookup; `serviceStatusForEnumServiceId` turns the
/// id at `info.service` (absent: the default key) into a call of
/// `getServiceStatus`; `getEnumServices` lists the services; any other name
/// is answered with an `UnknownOpName` failure.
pub fn handle_request(op_name: &str, req_info: &Json) -> (r: Step)
    ensures
        r@ == request_v(op_name@, req_info@),
{
    if same_text(op_name, FN_GET_SERVICE_STATUS) {
        if !req_info.is_object() {
            return Step::Reply(error_body(ErrorKind::BadReqInfoFormat));
        }
        match req_info.get("service") {
            None | Some(Json::Null) => Step::Lookup(String::from_str(DEFAULT_SERVICE.to_key())),
            Some(Json::Str(name)) => Step::Lookup(name.clone()),
            Some(_) => Step::Reply(error_body(ErrorKind::BadReqInfoFormat)),
        }
    } else if same_text(op_name, H_SERVICE_STATUS_FOR_ENUM_SERVICE_ID) {
        let ghost path = seq!["info"@, "service"@];
        proof {
            assert(path.drop_first() =~= seq!["service"@]);
            assert(path.drop_first().drop_first() =~= Seq::<Seq<char>>::empty());
        }
        let id = match req_info.get("info") {
            Some(inner) => match inner.get("service") {
                Some(id) => {
                    assert(path_of(id@, path.drop_first().drop_first()) == Some(id@));
                    assert(path_of(inner@, path.drop_first()) == Some(id@));
                    id.deep_clone()
                },
                None => {
                    assert(path_of(inner@, path.drop_first()) is None);
                    Json::from_text(DEFAULT_SERVICE.to_key())
                },
            },
            None => Json::from_text(DEFAULT_SERVICE.to_key()),
        };
        assert(id@ == match path_of(req_info@, path) {
            Some(x) => x,
            None => JsonV::Str(DEFAULT_SERVICE.key()),
        });
        Step::Reply(invocation(id))
    } else if same_text(op_name, H_GET_ENUM_SERVICES) {
        let mut r = Json::empty_object();
        r.push_member("info", Json::Null);
        r.push_member("entries", entries_json());
        assert(r@->Object_0 =~= enum_services_v()->Object_0);
        Step::Reply(r)
    } else {
        Step::Reply(error_body(ErrorKind::UnknownOpName))
    }
}

fn fail(kind: ErrorKind) -> (r: Outcome)
    ensures
        r@ == fail_v(kind),
{
    Outcome::Respond(Response { status: STATUS_BAD_REQUEST, body: error_body(kind) })
}

fn ok(body: Json) -> (r: Outcome)
    ensures
        r@ == OutcomeV::Respond(STATUS_OK, body@),
{
    Outcome::Respond(Response { status: STATUS_OK, body })
}

/// Routes an envelope. `{"action": "info"}` is answered with the capability
/// descriptor; `{"action": "request", "opName": .., "info": ..}` runs the
/// operation. A body that is not an object, has no string `action`, an
/// unknown action, or a request without `opName` or `info` is answered with
/// a failure and status 400; everything else goes out with status 200.
pub fn handler(data: &Json) -> (r: Outcome)
    ensures
        r@ == handler_v(data@),
{
    if !data.is_object() {
        return fail(ErrorKind::BadBodyFormat);
    }
    let action = match data.get("action") {
        Some(a) => match a.as_str() {
            Some(s) => s,
            None => {
                return fail(ErrorKind::ActionNotFound);
            },
        },
        None => {
            return fail(ErrorKind::ActionNotFound);
        },
    };
    if same_text(action.as_str(), "request") {
        let op_name = match data.get("opName") {
            Some(o) => match o.as_str() {
                Some(s) => s,
                None => {
                    return fail(ErrorKind::BadOpName);
                },
            },
            None => {
                return fail(ErrorKind::BadOpName);
            },
        };
        match data.get("info") {
            Some(req_info) => match handle_request(op_name.as_str(), req_info) {
                Step::Reply(j) => ok(j),
                Step::Lookup(name) => Outcome::Lookup(name),
            },
            None => fail(ErrorKind::BadOpInfo),
        }
    } else if same_text(action.as_str(), "info") {
        ok(get_info())
    } else {
        fail(ErrorKind::BadAction)
    }
}

/// Why a status lookup failed.
#[derive(Debug, PartialEq, Eq)]
pub enum GetStatusError {
    /// The name is not the key of any service; nothing was fetched.
    UnknownService { name: String },
    /// The provider could not be reached; the transport's description.
    RequestError { message: String },
    /// The provider's answer is not a status document.
    ParseError { error: ShapeError },
}

/// The URL to fetch for the service named `name`, or `UnknownService` where
/// no service has that key.
pub fn status_request_url(name: &str) -> (r: Result<String, GetStatusError>)
    ensures
        match r {
            Ok(url) => exists|x: Service| #[trigger] x.key() == name@ && url@ == url_for_host(x.host()),
            Err(e) => {
                &&& forall|x: Service| #[trigger] x.key() != name@
                &&& e matches GetStatusError::UnknownService { name: n } && n@ == name@
            },
        },
{
    match Service::from_name(name) {
        Some(service) => Ok(service.to_url()),
        None => Err(GetStatusError::UnknownService { name: name.to_owned() }),
    }
}

/// Reads the provider's answer: a transport failure becomes `RequestError`
/// with its description, a body that is not a status document becomes
/// `ParseError`, and a status document is returned as read.
pub fn status_from_response(fetched: Result<Json, String>) -> (r: Result<StatusRoot, GetStatusError>)
    ensures
        match fetched {
            Err(t) => r matches Err(GetStatusError::RequestError { message }) && message@ == t@,
            Ok(body) => match r {
                Ok(root) => crate::status::root_matches(root, body@),
                Err(e) => !crate::status::root_ok(body@) && e is ParseError,
            },
        },
{
    match fetched {
        Err(t) => Err(GetStatusError::RequestError { message: t }),
        Ok(body) => match parse_status_root(&body) {
            Ok(root) => Ok(root),
            Err(e) => Err(GetStatusError::ParseError { error: e }),
        },
    }
}

/// The answer to a status lookup: the table of the document, or a
/// `BadResponse` failure whatever went wrong; status 200 either way.
pub fn lookup_reply(result: Result<StatusRoot, GetStatusError>) -> (r: Response)
    ensures
        r.status == STATUS_OK,
        r.body@ == match result {
            Ok(root) => table_of(root.components@),
            Err(_) => error_v(ErrorKind::BadResponse),
        },
{
    match result {
        Ok(root) => Response { status: STATUS_OK, body: status_root_to_headless_table(root) },
        Err(_) => Response { status: STATUS_OK, body: error_body(ErrorKind::BadResponse) },
    }
}

/// Where the descriptor lists the services that `getServiceStatus` accepts.
pub open spec fn info_enum_path() -> Seq<Seq<char>> {
    seq!["tools"@, "getServiceStatus"@, "schema"@, "fields"@, "service"@, "enum"@]
}

/// An envelope with action `info` is answered at once, with status 200 and
/// the capability descriptor, and asks for no lookup; in that descriptor the
/// `service` parameter of `getServiceStatus` admits exactly the key list, in
/// order.
pub proof fn lemma_info_action(v: JsonV)
    requires
        v is Object,
        text_of(v, "action"@) == Some("info"@),
    ensures
        handler_v(v) == OutcomeV::Respond(STATUS_OK, info_v()),
        path_of(info_v(), info_enum_path()) == Some(keys_v()),
{
    reveal_strlit("info");
    reveal_strlit("request");
    assert("info"@[0] != "request"@[0]);

    // The members passed over on the way down differ from the key sought.
    reveal_strlit("ns");
    reveal_strlit("title");
    reveal_strlit("tagValues");
    reveal_strlit("tools");
    reveal_strlit("description");
    reveal_strlit("schema");
    reveal_strlit("type");
    reveal_strlit("enum");
    assert("ns"@.len() != "tools"@.len());
    assert("title"@[1] != "tools"@[1]);
    assert("tagValues"@.len() != "tools"@.len());
    assert("title"@.len() != "schema"@.len());
    assert("description"@.len() != "schema"@.len());
    assert("type"@[0] != "enum"@[0]);

    let top = info_v();
    lemma_member_at(top->Object_0, 3, "tools"@);
    let tools = top->Object_0[3].1;
    lemma_member_at(tools->Object_0, 0, "getServiceStatus"@);
    let tool = tools->Object_0[0].1;
    lemma_member_at(tool->Object_0, 2, "schema"@);
    let schema = tool->Object_0[2].1;
    lemma_member_at(schema->Object_0, 0, "fields"@);
    let fields = schema->Object_0[0].1;
    lemma_member_at(fields->Object_0, 0, "service"@);
    let param = fields->Object_0[0].1;
    lemma_member_at(param->Object_0, 1, "enum"@);
    let allowed = param->Object_0[1].1;

    let at_enum = Seq::<Seq<char>>::empty();
    let at_param = seq!["enum"@] + at_enum;
    let at_fields = seq!["service"@] + at_param;
    let at_schema = seq!["fields"@] + at_fields;
    let at_tool = seq!["schema"@] + at_schema;
    let at_tools = seq!["getServiceStatus"@] + at_tool;
    let whole = seq!["tools"@] + at_tools;
    lemma_path_step(param, "enum"@, at_enum, allowed);
    lemma_path_step(fields, "service"@, at_param, param);
    lemma_path_step(schema, "fields"@, at_fields, fields);
    lemma_path_step(tool, "schema"@, at_schema, schema);
    lemma_path_step(tools, "getServiceStatus"@, at_tool, tool);
    lemma_path_step(top, "tools"@, at_tools, tools);
    assert(path_of(allowed, at_enum) == Some(allowed));
    assert(whole =~= info_enum_path());
}

} // verus!
