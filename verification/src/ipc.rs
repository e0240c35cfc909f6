//! The agent's JSON-RPC 2.0 interface over its named pipe: admitting a
//! request line, routing its method, reading its parameters, and the answers
//! sent back. The pipe itself and the handlers' storage work stay with the
//! caller.
use vstd::prelude::*;
use crate::intel::{JsonValue, entries_member, json_document, json_lookup, json_member, parse_json};
use crate::records::{IocEntry, opt_string_view};
use crate::text::{concat, str_eq, str_trim, trim};

verus! {

proof fn lemma_member_cons(e: (String, JsonValue), rest: Seq<(String, JsonValue)>, key: Seq<char>)
    ensures
        entries_member(seq![e] + rest, key) == if e.0@ == key {
            Some(e.1)
        } else {
            entries_member(rest, key)
        },
{
    let s = seq![e] + rest;
    assert(s[0] == e);
    assert(s.subrange(1, s.len() as int) =~= rest);
}

/// An optional JSON value read into an `Option`: absent and `null` are `None`.
pub open spec fn non_null(v: Option<JsonValue>) -> Option<JsonValue> {
    match v {
        Some(JsonValue::Null) => None,
        other => other,
    }
}

/// The string of an optional JSON value.
pub open spec fn opt_json_str(v: Option<JsonValue>) -> Option<Seq<char>> {
    match v {
        Some(JsonValue::Str(s)) => Some(s@),
        _ => None,
    }
}

/// A request as the agent reads it.
pub ghost struct RequestView {
    pub jsonrpc: Seq<char>,
    pub method: Seq<char>,
    pub params: Option<JsonValue>,
    pub id: Option<JsonValue>,
    pub auth: Seq<char>,
}

/// The request a JSON document holds: an object with string `jsonrpc`,
/// `method` and `auth` members and optional `params` and `id` (other members
/// ignored), or the same five fields as an array, in that order.
pub open spec fn request_of(doc: JsonValue) -> Option<RequestView> {
    match doc {
        JsonValue::Object(entries) => {
            let jsonrpc = opt_json_str(json_member(doc, "jsonrpc"@));
            let method = opt_json_str(json_member(doc, "method"@));
            let auth = opt_json_str(json_member(doc, "auth"@));
            if jsonrpc is Some && method is Some && auth is Some {
                Some(
                    RequestView {
                        jsonrpc: jsonrpc->0,
                        method: method->0,
                        params: non_null(json_member(doc, "params"@)),
                        id: non_null(json_member(doc, "id"@)),
                        auth: auth->0,
                    },
                )
            } else {
                None
            }
        },
        JsonValue::Array(items) => {
            if items@.len() == 5 && items@[0] is Str && items@[1] is Str && items@[4] is Str {
                Some(
                    RequestView {
                        jsonrpc: opt_json_str(Some(items@[0]))->0,
                        method: opt_json_str(Some(items@[1]))->0,
                        params: non_null(Some(items@[2])),
                        id: non_null(Some(items@[3])),
                        auth: opt_json_str(Some(items@[4]))->0,
                    },
                )
            } else {
                None
            }
        },
        _ => None,
    }
}

/// A JSON-RPC request.
#[derive(Debug)]
pub struct RpcRequest {
    pub jsonrpc: String,
    pub method: String,
    pub params: Option<JsonValue>,
    pub id: Option<JsonValue>,
    pub auth: String,
}

impl View for RpcRequest {
    type V = RequestView;

    open spec fn view(&self) -> RequestView {
        RequestView {
            jsonrpc: self.jsonrpc@,
            method: self.method@,
            params: self.params,
            id: self.id,
            auth: self.auth@,
        }
    }
}

/// The error member of an answer.
#[derive(Debug)]
pub struct RpcError {
    pub code: i64,
    pub message: String,
}

/// A JSON-RPC answer: `result` on success, `error` on failure.
#[derive(Debug)]
pub struct RpcResponse {
    pub jsonrpc: String,
    pub result: Option<JsonValue>,
    pub error: Option<RpcError>,
    pub id: Option<JsonValue>,
}

/// Code of a line that is not a request.
pub const PARSE_ERROR: i64 = -32700;

/// Code of a request whose token does not match.
pub const UNAUTHORIZED: i64 = -32001;

/// Code of a request whose handler failed.
pub const INTERNAL_ERROR: i64 = -32603;

impl RpcResponse {
    /// A successful answer.
    pub fn ok(id: Option<JsonValue>, result: JsonValue) -> (r: RpcResponse)
        ensures
            r.jsonrpc@ == "2.0"@,
            r.result == Some(result),
            r.error is None,
            r.id == id,
    {
        RpcResponse { jsonrpc: String::from_str("2.0"), result: Some(result), error: None, id }
    }

    /// A failed answer.
    pub fn err(id: Option<JsonValue>, code: i64, message: String) -> (r: RpcResponse)
        ensures
            r.jsonrpc@ == "2.0"@,
            r.result is None,
            r.error is Some,
            r.error->0.code == code,
            r.error->0.message == message,
            r.id == id,
    {
        RpcResponse {
            jsonrpc: String::from_str("2.0"),
            result: None,
            error: Some(RpcError { code, message }),
            id,
        }
    }
}

/// `resp` is a failed answer under `id` with the given code and message.
pub open spec fn is_error_answer(resp: RpcResponse, id: Option<JsonValue>, code: i64, msg: Seq<char>) -> bool {
    &&& resp.jsonrpc@ == "2.0"@
    &&& resp.result is None
    &&& resp.id == id
    &&& resp.error is Some
    &&& resp.error->0.code == code
    &&& resp.error->0.message@ == msg
}

/// What the server does with a line read from the pipe.
#[derive(Debug)]
pub enum Admission {
    /// A blank line: no answer.
    Ignore,
    /// A line answered at once with an error.
    Reject(RpcResponse),
    /// An authorised request, to be dispatched.
    Accept(RpcRequest),
}

fn str_member(v: &JsonValue, key: &str) -> (r: Option<String>)
    ensures
        opt_string_view(r) == opt_json_str(json_member(*v, key@)),
{
    match json_lookup(v, key) {
        Some(JsonValue::Str(s)) => Some(s.clone()),
        _ => None,
    }
}

proof fn lemma_request_keys_distinct()
    ensures
        "jsonrpc"@ != "method"@,
        "jsonrpc"@ != "auth"@,
        "jsonrpc"@ != "params"@,
        "jsonrpc"@ != "id"@,
        "method"@ != "auth"@,
        "method"@ != "params"@,
        "method"@ != "id"@,
        "auth"@ != "params"@,
        "auth"@ != "id"@,
        "params"@ != "id"@,
{
    reveal_strlit("jsonrpc");
    reveal_strlit("method");
    reveal_strlit("auth");
    reveal_strlit("params");
    reveal_strlit("id");
    assert("jsonrpc"@[0] != "method"@[0]);
    assert("jsonrpc"@[0] != "auth"@[0]);
    assert("jsonrpc"@[0] != "params"@[0]);
    assert("jsonrpc"@[0] != "id"@[0]);
    assert("method"@[0] != "auth"@[0]);
    assert("method"@[0] != "params"@[0]);
    assert("method"@[0] != "id"@[0]);
    assert("auth"@[0] != "params"@[0]);
    assert("auth"@[0] != "id"@[0]);
    assert("params"@[0] != "id"@[0]);
}

proof fn lemma_answer_keys_distinct()
    ensures
        "error"@ != "result"@,
{
    reveal_strlit("error");
    reveal_strlit("result");
    assert("error"@[0] != "result"@[0]);
}

fn non_null_value(x: JsonValue) -> (r: Option<JsonValue>)
    ensures
        r == non_null(Some(x)),
{
    match x {
        JsonValue::Null => None,
        _ => Some(x),
    }
}

fn string_value(x: JsonValue) -> (r: Option<String>)
    ensures
        opt_string_view(r) == opt_json_str(Some(x)),
{
    match x {
        JsonValue::Str(s) => Some(s),
        _ => None,
    }
}

/// The request a JSON document holds, as `request_of` states it.
pub fn read_request(doc: JsonValue) -> (r: Option<RpcRequest>)
    ensures
        match r {
            Some(q) => request_of(doc) == Some(q@),
            None => request_of(doc) is None,
        },
{
    match doc {
        JsonValue::Object(entries) => {
            let ghost all = entries@;
            let mut rest = entries;
            let mut jsonrpc: Option<String> = None;
            let mut method: Option<String> = None;
            let mut auth: Option<String> = None;
            let mut params: Option<JsonValue> = None;
            let mut id: Option<JsonValue> = None;
            assert(all.skip(all.len() as int) =~= Seq::<(String, JsonValue)>::empty());
            while rest.len() > 0
                invariant
                    rest@ == all.take(rest@.len() as int),
                    rest@.len() <= all.len(),
                    opt_string_view(jsonrpc) == opt_json_str(entries_member(all.skip(rest@.len() as int), "jsonrpc"@)),
                    opt_string_view(method) == opt_json_str(entries_member(all.skip(rest@.len() as int), "method"@)),
                    opt_string_view(auth) == opt_json_str(entries_member(all.skip(rest@.len() as int), "auth"@)),
                    params == entries_member(all.skip(rest@.len() as int), "params"@),
                    id == entries_member(all.skip(rest@.len() as int), "id"@),
                decreases rest@.len(),
            {
                let ghost n = rest@.len() as int;
                let (k, v) = rest.pop().unwrap();
                assert(all.skip(n - 1) =~= seq![(k, v)] + all.skip(n));
                assert(rest@ =~= all.take(n - 1));
                proof {
                    lemma_request_keys_distinct();
                    lemma_member_cons((k, v), all.skip(n), "jsonrpc"@);
                    lemma_member_cons((k, v), all.skip(n), "method"@);
                    lemma_member_cons((k, v), all.skip(n), "auth"@);
                    lemma_member_cons((k, v), all.skip(n), "params"@);
                    lemma_member_cons((k, v), all.skip(n), "id"@);
                }
                if str_eq(k.as_str(), "jsonrpc") {
                    jsonrpc = string_value(v);
                } else if str_eq(k.as_str(), "method") {
                    method = string_value(v);
                } else if str_eq(k.as_str(), "auth") {
                    auth = string_value(v);
                } else if str_eq(k.as_str(), "params") {
                    params = Some(v);
                } else if str_eq(k.as_str(), "id") {
                    id = Some(v);
                }
            }
            assert(all.skip(0) =~= all);
            match (jsonrpc, method, auth) {
                (Some(j), Some(m), Some(a)) => {
                    let params = match params {
                        Some(x) => non_null_value(x),
                        None => None,
                    };
                    let id = match id {
                        Some(x) => non_null_value(x),
                        None => None,
                    };
                    Some(RpcRequest { jsonrpc: j, method: m, params, id, auth: a })
                },
                _ => None,
            }
        },
        JsonValue::Array(items) => {
            if items.len() != 5 {
                return None;
            }
            let ghost all = items@;
            let mut items = items;
            let a = items.pop().unwrap();
            let i = items.pop().unwrap();
            let p = items.pop().unwrap();
            let m = items.pop().unwrap();
            let j = items.pop().unwrap();
            assert(j == all[0] && m == all[1] && p == all[2] && i == all[3] && a == all[4]);
            match (string_value(j), string_value(m), string_value(a)) {
                (Some(j), Some(m), Some(a)) => {
                    let params = non_null_value(p);
                    let id = non_null_value(i);
                    Some(RpcRequest { jsonrpc: j, method: m, params, id, auth: a })
                },
                _ => None,
            }
        },
        _ => None,
    }
}

/// The request a line holds: the JSON document of the trimmed line read as
/// `request_of` states it.
pub open spec fn line_request(line: Seq<char>) -> Option<RequestView> {
    match json_document(str_trim(line)) {
        Some(doc) => request_of(doc),
        None => None,
    }
}

/// The line is answered at once with the given error.
pub open spec fn rejected_with(a: Admission, id: Option<JsonValue>, code: i64, msg: Seq<char>) -> bool {
    match a {
        Admission::Reject(resp) => is_error_answer(resp, id, code, msg),
        _ => false,
    }
}

/// The line is accepted as the given request.
pub open spec fn accepted_as(a: Admission, q: RequestView) -> bool {
    match a {
        Admission::Accept(req) => req@ == q,
        _ => false,
    }
}

/// Screen a line read from the pipe: a blank line is ignored; one that holds no
/// request is answered with a parse error (and no id); one whose token differs
/// from `token` is answered `Unauthorized` under its id; any other request is
/// accepted.
pub fn screen_line(line: &str, token: &str) -> (r: Admission)
    ensures
        str_trim(line@).len() == 0 ==> r is Ignore,
        str_trim(line@).len() > 0 ==> match line_request(line@) {
            None => rejected_with(r, None, PARSE_ERROR, "Parse error"@),
            Some(q) => if q.auth == token@ {
                accepted_as(r, q)
            } else {
                rejected_with(r, q.id, UNAUTHORIZED, "Unauthorized"@)
            },
        },
{
    let trimmed = trim(line);
    if crate::text::chars_of(trimmed.as_str()).len() == 0 {
        return Admission::Ignore;
    }
    let req = match parse_json(trimmed.as_str()) {
        Some(doc) => read_request(doc),
        None => None,
    };
    match req {
        None => Admission::Reject(RpcResponse::err(None, PARSE_ERROR, String::from_str("Parse error"))),
        Some(q) => {
            if str_eq(q.auth.as_str(), token) {
                Admission::Accept(q)
            } else {
                Admission::Reject(RpcResponse::err(q.id, UNAUTHORIZED, String::from_str("Unauthorized")))
            }
        },
    }
}

/// The answer to an accepted request from what its handler gave: the result,
/// or the handler's error message under the internal-error code.
pub fn reply(id: Option<JsonValue>, outcome: Result<JsonValue, String>) -> (r: RpcResponse)
    ensures
        r.jsonrpc@ == "2.0"@,
        r.id == id,
        match outcome {
            Ok(v) => r.result == Some(v) && r.error is None,
            Err(m) => is_error_answer(r, id, INTERNAL_ERROR, m@),
        },
{
    match outcome {
        Ok(v) => RpcResponse::ok(id, v),
        Err(m) => RpcResponse::err(id, INTERNAL_ERROR, m),
    }
}

/// The methods the agent answers.
#[derive(Debug, Clone, Copy, PartialEq, Eq, Structural)]
pub enum RpcMethod {
    GetStatus,
    GetStats,
    GetThreats,
    GetEvents,
    GetQuarantine,
    GetFeedStatus,
    GetConfig,
    SetConfig,
    ScanFile,
    ScanPath,
    GetProcesses,
    GetConnections,
    KillProcess,
    QuarantineFile,
    RestoreQuarantine,
    DeleteQuarantine,
    PauseProtection,
    ResumeProtection,
    UpdateFeeds,
    AddException,
    BlockIoc,
}

/// The method a name selects.
pub open spec fn method_named(name: Seq<char>) -> Option<RpcMethod> {
    if name == "get_status"@ {
        Some(RpcMethod::GetStatus)
    } else if name == "get_stats"@ {
        Some(RpcMethod::GetStats)
    } else if name == "get_threats"@ {
        Some(RpcMethod::GetThreats)
    } else if name == "get_events"@ {
        Some(RpcMethod::GetEvents)
    } else if name == "get_quarantine"@ {
        Some(RpcMethod::GetQuarantine)
    } else if name == "get_feed_status"@ {
        Some(RpcMethod::GetFeedStatus)
    } else if name == "get_config"@ {
        Some(RpcMethod::GetConfig)
    } else if name == "set_config"@ {
        Some(RpcMethod::SetConfig)
    } else if name == "scan_file"@ {
        Some(RpcMethod::ScanFile)
    } else if name == "scan_path"@ {
        Some(RpcMethod::ScanPath)
    } else if name == "get_processes"@ {
        Some(RpcMethod::GetProcesses)
    } else if name == "get_connections"@ {
        Some(RpcMethod::GetConnections)
    } else if name == "kill_process"@ {
        Some(RpcMethod::KillProcess)
    } else if name == "quarantine_file"@ {
        Some(RpcMethod::QuarantineFile)
    } else if name == "restore_quarantine"@ {
        Some(RpcMethod::RestoreQuarantine)
    } else if name == "delete_quarantine"@ {
        Some(RpcMethod::DeleteQuarantine)
    } else if name == "pause_protection"@ {
        Some(RpcMethod::PauseProtection)
    } else if name == "resume_protection"@ {
        Some(RpcMethod::ResumeProtection)
    } else if name == "update_feeds"@ {
        Some(RpcMethod::UpdateFeeds)
    } else if name == "add_exception"@ {
        Some(RpcMethod::AddException)
    } else if name == "block_ioc"@ {
        Some(RpcMethod::BlockIoc)
    } else {
        None
    }
}

/// Route a method name, or the error naming an unknown method.
pub fn route(method: &str) -> (r: Result<RpcMethod, String>)
    ensures
        match r {
            Ok(m) => method_named(method@) == Some(m),
            Err(msg) => method_named(method@) is None && msg@ == "Method not found: "@ + method@,
        },
{
    if str_eq(method, "get_status") {
        Ok(RpcMethod::GetStatus)
    } else if str_eq(method, "get_stats") {
        Ok(RpcMethod::GetStats)
    } else if str_eq(method, "get_threats") {
        Ok(RpcMethod::GetThreats)
    } else if str_eq(method, "get_events") {
        Ok(RpcMethod::GetEvents)
    } else if str_eq(method, "get_quarantine") {
        Ok(RpcMethod::GetQuarantine)
    } else if str_eq(method, "get_feed_status") {
        Ok(RpcMethod::GetFeedStatus)
    } else if str_eq(method, "get_config") {
        Ok(RpcMethod::GetConfig)
    } else if str_eq(method, "set_config") {
        Ok(RpcMethod::SetConfig)
    } else if str_eq(method, "scan_file") {
        Ok(RpcMethod::ScanFile)
    } else if str_eq(method, "scan_path") {
        Ok(RpcMethod::ScanPath)
    } else if str_eq(method, "get_processes") {
        Ok(RpcMethod::GetProcesses)
    } else if str_eq(method, "get_connections") {
        Ok(RpcMethod::GetConnections)
    } else if str_eq(method, "kill_process") {
        Ok(RpcMethod::KillProcess)
    } else if str_eq(method, "quarantine_file") {
        Ok(RpcMethod::QuarantineFile)
    } else if str_eq(method, "restore_quarantine") {
        Ok(RpcMethod::RestoreQuarantine)
    } else if str_eq(method, "delete_quarantine") {
        Ok(RpcMethod::DeleteQuarantine)
    } else if str_eq(method, "pause_protection") {
        Ok(RpcMethod::PauseProtection)
    } else if str_eq(method, "resume_protection") {
        Ok(RpcMethod::ResumeProtection)
    } else if str_eq(method, "update_feeds") {
        Ok(RpcMethod::UpdateFeeds)
    } else if str_eq(method, "add_exception") {
        Ok(RpcMethod::AddException)
    } else if str_eq(method, "block_ioc") {
        Ok(RpcMethod::BlockIoc)
    } else {
        Err(concat("Method not found: ", method))
    }
}

/// The `i64` reading of the member `key` of the parameters, if any.
pub open spec fn int_param(params: Option<JsonValue>, key: Seq<char>) -> Option<i64> {
    match params {
        Some(p) => match json_member(p, key) {
            Some(JsonValue::Number(Some(n), _)) => Some(n),
            _ => None,
        },
        None => None,
    }
}

fn int_member(params: &Option<JsonValue>, key: &str) -> (r: Option<i64>)
    ensures
        r == int_param(*params, key@),
{
    match params {
        Some(p) => match json_lookup(p, key) {
            Some(JsonValue::Number(Some(n), _)) => Some(*n),
            _ => None,
        },
        None => None,
    }
}

/// The paging of a listing: `limit` (default `default_limit`) and `offset`
/// (default 0) from the parameters, each where it is an integer.
pub fn page_params(params: &Option<JsonValue>, default_limit: i64) -> (r: (i64, i64))
    ensures
        r.0 == match int_param(*params, "limit"@) {
            Some(n) => n,
            None => default_limit,
        },
        r.1 == match int_param(*params, "offset"@) {
            Some(n) => n,
            None => 0,
        },
{
    let limit = match int_member(params, "limit") {
        Some(n) => n,
        None => default_limit,
    };
    let offset = match int_member(params, "offset") {
        Some(n) => n,
        None => 0,
    };
    (limit, offset)
}

/// Threats are listed 100 at a time unless the request says otherwise.
pub const THREATS_PAGE: i64 = 100;

/// Events are listed 200 at a time unless the request says otherwise.
pub const EVENTS_PAGE: i64 = 200;

/// The string member `key` of the parameters, if any.
pub open spec fn str_param(params: Option<JsonValue>, key: Seq<char>) -> Option<Seq<char>> {
    match params {
        Some(p) => opt_json_str(json_member(p, key)),
        None => None,
    }
}

/// The string parameter `key`, or the error `<key> required`.
pub fn required_str(params: &Option<JsonValue>, key: &str) -> (r: Result<String, String>)
    ensures
        match r {
            Ok(s) => str_param(*params, key@) == Some(s@),
            Err(msg) => str_param(*params, key@) is None && msg@ == key@ + " required"@,
        },
{
    let found = match params {
        Some(p) => str_member(p, key),
        None => None,
    };
    match found {
        Some(s) => Ok(s),
        None => Err(concat(key, " required")),
    }
}

/// The `u64` reading of the `pid` parameter, if any.
pub open spec fn pid_param(params: Option<JsonValue>) -> Option<u64> {
    match params {
        Some(p) => match json_member(p, "pid"@) {
            Some(JsonValue::Number(_, Some(n))) => Some(n),
            _ => None,
        },
        None => None,
    }
}

/// The process to kill: the `pid` parameter cut to 32 bits, or the error
/// `pid required`.
pub fn required_pid(params: &Option<JsonValue>) -> (r: Result<u32, String>)
    ensures
        match r {
            Ok(pid) => pid_param(*params) matches Some(n) && pid as int == n as int % 0x1_0000_0000,
            Err(msg) => pid_param(*params) is None && msg@ == "pid required"@,
        },
{
    let found = match params {
        Some(p) => match json_lookup(p, "pid") {
            Some(JsonValue::Number(_, Some(n))) => Some(*n),
            _ => None,
        },
        None => None,
    };
    match found {
        Some(n) => {
            let pid: u32 = (n % 0x1_0000_0000u64) as u32;
            Ok(pid)
        },
        None => Err(String::from_str("pid required")),
    }
}

/// Protection is on unless the stored `protection_paused` value is `true`.
pub fn protection_enabled(paused: &Option<String>) -> (r: bool)
    ensures
        r == !(opt_string_view(*paused) == Some("true"@)),
{
    match paused {
        Some(v) => !str_eq(v.as_str(), "true"),
        None => true,
    }
}

/// The configuration key that records an exception for `path`.
pub fn exception_key(path: &str) -> (r: String)
    ensures
        r@ == "exception:"@ + path@,
{
    concat("exception:", path)
}

/// The IOC stored when an operator blocks a value by hand at time `now`.
pub fn manual_block_entry(ioc_type: &str, value: &str, now: &str) -> (r: IocEntry)
    ensures
        r.id is None,
        r.ioc_type@ == ioc_type@,
        r.value@ == value@,
        r.source@ == "manual_block"@,
        r.confidence == 100,
        opt_string_view(r.first_seen) == Some(now@),
        opt_string_view(r.last_seen) == Some(now@),
        opt_string_view(r.tags) == Some("[\"manual\"]"@),
        !r.is_allowlist,
{
    IocEntry {
        id: None,
        ioc_type: String::from_str(ioc_type),
        value: String::from_str(value),
        source: String::from_str("manual_block"),
        confidence: 100,
        first_seen: Some(String::from_str(now)),
        last_seen: Some(String::from_str(now)),
        tags: Some(String::from_str("[\"manual\"]")),
        is_allowlist: false,
    }
}

/// The members of a JSON object (none for other values).
pub open spec fn members(v: JsonValue) -> Seq<(String, JsonValue)> {
    match v {
        JsonValue::Object(entries) => entries@,
        _ => seq![],
    }
}

/// The value is the JSON string `s`.
pub open spec fn is_json_str(v: JsonValue, s: Seq<char>) -> bool {
    match v {
        JsonValue::Str(x) => x@ == s,
        _ => false,
    }
}

/// The JSON number an unsigned value makes.
pub open spec fn u64_number(n: u64) -> JsonValue {
    JsonValue::Number(
        if n <= i64::MAX as u64 {
            Some(n as i64)
        } else {
            None
        },
        Some(n),
    )
}

/// The JSON object with the one member `key`.
pub fn single_member(key: &str, value: JsonValue) -> (r: JsonValue)
    ensures
        r is Object,
        members(r).len() == 1,
        members(r)[0].0@ == key@,
        members(r)[0].1 == value,
{
    let mut entries: Vec<(String, JsonValue)> = Vec::new();
    entries.push((String::from_str(key), value));
    JsonValue::Object(entries)
}

/// A JSON number holding an unsigned value.
pub fn json_u64(n: u64) -> (r: JsonValue)
    ensures
        r == u64_number(n),
{
    let i = if n <= 0x7FFF_FFFF_FFFF_FFFFu64 {
        Some(n as i64)
    } else {
        None
    };
    JsonValue::Number(i, Some(n))
}

/// The answer of `get_status`: running, whether protection is on, the version,
/// the last feed update and the uptime in seconds (members in key order).
pub fn status_result(protection_on: bool, last_update: Option<String>, uptime_seconds: u64, version: &str) -> (r:
    JsonValue)
    ensures
        r is Object,
        members(r).len() == 5,
        members(r)[0].0@ == "last_update"@,
        members(r)[0].1 == match last_update {
            Some(s) => JsonValue::Str(s),
            None => JsonValue::Null,
        },
        members(r)[1].0@ == "protection_enabled"@,
        members(r)[1].1 == JsonValue::Bool(protection_on),
        members(r)[2].0@ == "running"@,
        members(r)[2].1 == JsonValue::Bool(true),
        members(r)[3].0@ == "uptime_seconds"@,
        members(r)[3].1 == u64_number(uptime_seconds),
        members(r)[4].0@ == "version"@,
        is_json_str(members(r)[4].1, version@),
{
    let mut entries: Vec<(String, JsonValue)> = Vec::new();
    let lu = match last_update {
        Some(s) => JsonValue::Str(s),
        None => JsonValue::Null,
    };
    entries.push((String::from_str("last_update"), lu));
    entries.push((String::from_str("protection_enabled"), JsonValue::Bool(protection_on)));
    entries.push((String::from_str("running"), JsonValue::Bool(true)));
    entries.push((String::from_str("uptime_seconds"), json_u64(uptime_seconds)));
    entries.push((String::from_str("version"), JsonValue::Str(String::from_str(version))));
    JsonValue::Object(entries)
}

/// A client of the agent's pipe.
#[derive(Debug)]
pub struct IpcClient {
    pipe_name: String,
    auth_token: String,
}

impl IpcClient {
    /// A client for the given pipe, authenticating with `auth_token`.
    pub fn new(pipe_name: &str, auth_token: &str) -> (r: IpcClient)
        ensures
            r.pipe_name()@ == pipe_name@,
            r.auth_token()@ == auth_token@,
    {
        IpcClient { pipe_name: String::from_str(pipe_name), auth_token: String::from_str(auth_token) }
    }

    /// The pipe the client talks to.
    pub closed spec fn pipe_name(&self) -> String {
        self.pipe_name
    }

    /// The token the client sends.
    pub closed spec fn auth_token(&self) -> String {
        self.auth_token
    }

    /// The pipe the client talks to.
    pub fn pipe(&self) -> (r: &str)
        ensures
            r@ == self.pipe_name()@,
    {
        self.pipe_name.as_str()
    }

    /// The request the client sends for `method`: its token, id 1, version
    /// `2.0`, the method and the parameters (`null` when there are none),
    /// members in key order.
    pub fn request(&self, method: &str, params: Option<JsonValue>) -> (r: JsonValue)
        ensures
            r is Object,
            members(r).len() == 5,
            members(r)[0].0@ == "auth"@,
            is_json_str(members(r)[0].1, self.auth_token()@),
            members(r)[1].0@ == "id"@,
            members(r)[1].1 == JsonValue::Number(Some(1), Some(1)),
            members(r)[2].0@ == "jsonrpc"@,
            is_json_str(members(r)[2].1, "2.0"@),
            members(r)[3].0@ == "method"@,
            is_json_str(members(r)[3].1, method@),
            members(r)[4].0@ == "params"@,
            members(r)[4].1 == match params {
                Some(p) => p,
                None => JsonValue::Null,
            },
    {
        let mut entries: Vec<(String, JsonValue)> = Vec::new();
        entries.push((String::from_str("auth"), JsonValue::Str(self.auth_token.clone())));
        entries.push((String::from_str("id"), JsonValue::Number(Some(1), Some(1))));
        entries.push((String::from_str("jsonrpc"), JsonValue::Str(String::from_str("2.0"))));
        entries.push((String::from_str("method"), JsonValue::Str(String::from_str(method))));
        let p = match params {
            Some(p) => p,
            None => JsonValue::Null,
        };
        entries.push((String::from_str("params"), p));
        JsonValue::Object(entries)
    }
}

/// What a client makes of an answer: the `error` member when there is one
/// (even `null`), else the `result` member, or `null` when that is missing.
pub fn answer_outcome(resp: JsonValue) -> (r: Result<JsonValue, JsonValue>)
    ensures
        match json_member(resp, "error"@) {
            Some(e) => r == Err::<JsonValue, JsonValue>(e),
            None => r == Ok::<JsonValue, JsonValue>(
                match json_member(resp, "result"@) {
                    Some(v) => v,
                    None => JsonValue::Null,
                },
            ),
        },
{
    match resp {
        JsonValue::Object(entries) => {
            let ghost all = entries@;
            let mut rest = entries;
            let mut error: Option<JsonValue> = None;
            let mut result: Option<JsonValue> = None;
            while rest.len() > 0
                invariant
                    rest@ == all.take(rest@.len() as int),
                    rest@.len() <= all.len(),
                    error == entries_member(all.skip(rest@.len() as int), "error"@),
                    result == entries_member(all.skip(rest@.len() as int), "result"@),
                decreases rest@.len(),
            {
                let ghost n = rest@.len() as int;
                let (k, v) = rest.pop().unwrap();
                assert(all.skip(n - 1) =~= seq![(k, v)] + all.skip(n));
                assert(rest@ =~= all.take(n - 1));
                proof {
                    lemma_answer_keys_distinct();
                    lemma_member_cons((k, v), all.skip(n), "error"@);
                    lemma_member_cons((k, v), all.skip(n), "result"@);
                }
                if str_eq(k.as_str(), "error") {
                    error = Some(v);
                } else if str_eq(k.as_str(), "result") {
                    result = Some(v);
                }
            }
            assert(all.skip(0) =~= all);
            match error {
                Some(e) => Err(e),
                None => match result {
                    Some(v) => Ok(v),
                    None => Ok(JsonValue::Null),
                },
            }
        },
        _ => Ok(JsonValue::Null),
    }
}

} // verus!
