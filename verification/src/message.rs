//! JSON-RPC 2.0 messages as they travel over the bus.
use crate::ids::{fresh_uuid, is_v4_uuid_text};
use crate::json::{field, integer_text_i64, lookup, parse_i64, take_fields, JsonValue};
use vstd::prelude::*;

verus! {

/// Message received from the bus: one line of JSON text.
#[derive(Debug, Clone)]
pub struct BusMessage {
    pub json: String,
}

/// A JSON-RPC request (or, without an id, a notification), with the routing
/// hints of the bus.
#[derive(Debug)]
pub struct JsonRpcRequest {
    pub jsonrpc: String,
    pub id: Option<JsonValue>,
    pub method: String,
    pub params: Option<JsonValue>,
    /// Session used to route the message to a worker
    pub session_id: Option<String>,
    /// Agent the message is meant for
    pub agent_id: Option<String>,
}

/// The error member of a JSON-RPC response.
#[derive(Debug)]
pub struct JsonRpcError {
    pub code: i64,
    pub message: String,
    pub data: Option<JsonValue>,
}

/// A JSON-RPC response.
#[derive(Debug)]
pub struct JsonRpcResponse {
    pub jsonrpc: String,
    pub id: Option<JsonValue>,
    pub result: Option<JsonValue>,
    pub error: Option<JsonRpcError>,
}

/// Any JSON-RPC message.
#[derive(Debug)]
pub enum JsonRpcMessage {
    Request(JsonRpcRequest),
    Response(JsonRpcResponse),
}

/// The members of object entries, keys taken by their text.
pub open spec fn members(es: Seq<(String, JsonValue)>) -> Seq<(Seq<char>, JsonValue)> {
    es.map_values(|e: (String, JsonValue)| (e.0@, e.1))
}

/// A member that is present only when the value is.
pub open spec fn optional_member(key: Seq<char>, v: Option<JsonValue>) -> Seq<(Seq<char>, JsonValue)> {
    match v {
        Some(x) => seq![(key, x)],
        None => Seq::empty(),
    }
}

/// A string member that is present only when the string is.
pub open spec fn optional_text_member(key: Seq<char>, v: Option<String>) -> Seq<(Seq<char>, JsonValue)> {
    match v {
        Some(s) => seq![(key, JsonValue::String(s))],
        None => Seq::empty(),
    }
}

/// The members of a request's JSON object, in order: `jsonrpc`, `id` (when
/// set), `method`, `params` (when set), `sessionId` and `agentId` (when set).
pub open spec fn request_members(r: JsonRpcRequest) -> Seq<(Seq<char>, JsonValue)> {
    seq![("jsonrpc"@, JsonValue::String(r.jsonrpc))] + optional_member("id"@, r.id) + seq![
        ("method"@, JsonValue::String(r.method)),
    ] + optional_member("params"@, r.params) + optional_text_member("sessionId"@, r.session_id)
        + optional_text_member("agentId"@, r.agent_id)
}

fn push_member(es: &mut Vec<(String, JsonValue)>, key: &str, v: JsonValue)
    ensures
        members(final(es)@) == members(old(es)@).push((key@, v)),
{
    es.push((key.to_string(), v));
    assert(members(es@) =~= members(old(es)@).push((key@, v)));
}

impl JsonRpcRequest {
    /// A request with the given id.
    pub fn with_id(method: &str, params: Option<JsonValue>, id: String) -> (r: JsonRpcRequest)
        ensures
            r.jsonrpc@ == "2.0"@,
            r.method@ == method@,
            r.params == params,
            r.id == Some(JsonValue::String(id)),
            r.session_id is None,
            r.agent_id is None,
    {
        JsonRpcRequest {
            jsonrpc: "2.0".to_string(),
            id: Some(JsonValue::String(id)),
            method: method.to_string(),
            params,
            session_id: None,
            agent_id: None,
        }
    }

    /// A request with a fresh random id (the text of a version-4 UUID).
    pub fn new(method: &str, params: Option<JsonValue>) -> (r: JsonRpcRequest)
        ensures
            r.jsonrpc@ == "2.0"@,
            r.method@ == method@,
            r.params == params,
            r.id matches Some(JsonValue::String(s)) && is_v4_uuid_text(s@),
            r.session_id is None,
            r.agent_id is None,
    {
        let id = fresh_uuid();
        JsonRpcRequest::with_id(method, params, id)
    }

    /// A notification: a request without an id.
    pub fn notification(method: &str, params: Option<JsonValue>) -> (r: JsonRpcRequest)
        ensures
            r.jsonrpc@ == "2.0"@,
            r.method@ == method@,
            r.params == params,
            r.id is None,
            r.session_id is None,
            r.agent_id is None,
    {
        JsonRpcRequest {
            jsonrpc: "2.0".to_string(),
            id: None,
            method: method.to_string(),
            params,
            session_id: None,
            agent_id: None,
        }
    }

    /// Sets the session used for routing.
    pub fn with_session_id(self, session_id: &str) -> (r: JsonRpcRequest)
        ensures
            r.session_id matches Some(s) && s@ == session_id@,
            r.jsonrpc == self.jsonrpc,
            r.id == self.id,
            r.method == self.method,
            r.params == self.params,
            r.agent_id == self.agent_id,
    {
        JsonRpcRequest { session_id: Some(session_id.to_string()), ..self }
    }

    /// Sets the agent the request is meant for.
    pub fn with_agent_id(self, agent_id: &str) -> (r: JsonRpcRequest)
        ensures
            r.agent_id matches Some(s) && s@ == agent_id@,
            r.jsonrpc == self.jsonrpc,
            r.id == self.id,
            r.method == self.method,
            r.params == self.params,
            r.session_id == self.session_id,
    {
        JsonRpcRequest { agent_id: Some(agent_id.to_string()), ..self }
    }

    /// The id of the request when it is a JSON string.
    pub fn id_text(&self) -> (r: Option<&String>)
        ensures
            match r {
                Some(s) => self.id == Some(JsonValue::String(*s)),
                None => !(self.id matches Some(JsonValue::String(_))),
            },
    {
        match &self.id {
            Some(JsonValue::String(s)) => Some(s),
            _ => None,
        }
    }

    /// The JSON object of the request, as it is sent.
    pub fn into_value(self) -> (r: JsonValue)
        ensures
            r matches JsonValue::Object(es) && members(es@) == request_members(self),
    {
        let ghost me = self;
        let mut es: Vec<(String, JsonValue)> = Vec::new();
        push_member(&mut es, "jsonrpc", JsonValue::String(self.jsonrpc));
        match self.id {
            Some(v) => push_member(&mut es, "id", v),
            None => {},
        }
        push_member(&mut es, "method", JsonValue::String(self.method));
        match self.params {
            Some(v) => push_member(&mut es, "params", v),
            None => {},
        }
        match self.session_id {
            Some(s) => push_member(&mut es, "sessionId", JsonValue::String(s)),
            None => {},
        }
        match self.agent_id {
            Some(s) => push_member(&mut es, "agentId", JsonValue::String(s)),
            None => {},
        }
        assert(members(es@) =~= request_members(me));
        JsonValue::Object(es)
    }
}

/// A member whose JSON `null` counts as absent.
pub open spec fn non_null(v: Option<JsonValue>) -> Option<JsonValue> {
    match v {
        Some(JsonValue::Null) => None,
        other => other,
    }
}

fn take_non_null(v: Option<JsonValue>) -> (r: Option<JsonValue>)
    ensures
        r == non_null(v),
{
    match v {
        Some(JsonValue::Null) => None,
        other => other,
    }
}

/// Reads the error member of a response: an object with an integer `code`
/// that fits an `i64`, a string `message`, and optionally `data`.
pub open spec fn decode_error(v: JsonValue) -> Option<JsonRpcError> {
    match (field(v, "code"@), field(v, "message"@)) {
        (Some(JsonValue::Number(t)), Some(JsonValue::String(m))) => match integer_text_i64(t@) {
            Some(c) => Some(JsonRpcError { code: c, message: m, data: non_null(field(v, "data"@)) }),
            None => None,
        },
        _ => None,
    }
}

/// Reads a response: an object with a string `jsonrpc`; `id` and `result`
/// optional; `error` optional and, when present, readable as an error.
/// Other members are ignored and `null` counts as absent.
pub open spec fn decode_response(v: JsonValue) -> Option<JsonRpcResponse> {
    match field(v, "jsonrpc"@) {
        Some(JsonValue::String(j)) => {
            let id = non_null(field(v, "id"@));
            let result = non_null(field(v, "result"@));
            match non_null(field(v, "error"@)) {
                None => Some(JsonRpcResponse { jsonrpc: j, id, result, error: None }),
                Some(ev) => match decode_error(ev) {
                    Some(e) => Some(JsonRpcResponse { jsonrpc: j, id, result, error: Some(e) }),
                    None => None,
                },
            }
        },
        _ => None,
    }
}

/// Reads an optional string member: absent or `null` gives no string, a
/// string gives it, and anything else makes the message unreadable (the
/// outer `None`).
pub open spec fn optional_text(v: Option<JsonValue>) -> Option<Option<String>> {
    match v {
        None => Some(None),
        Some(JsonValue::Null) => Some(None),
        Some(JsonValue::String(t)) => Some(Some(t)),
        Some(_) => None,
    }
}

/// Reads a request: an object with a string `jsonrpc` and a string
/// `method`; `id` and `params` optional; `sessionId` and `agentId` optional
/// strings. Other members are ignored and `null` counts as absent.
pub open spec fn decode_request(v: JsonValue) -> Option<JsonRpcRequest> {
    match (field(v, "jsonrpc"@), field(v, "method"@)) {
        (Some(JsonValue::String(j)), Some(JsonValue::String(m))) => match (
            optional_text(field(v, "sessionId"@)),
            optional_text(field(v, "agentId"@)),
        ) {
            (Some(sid), Some(aid)) => Some(
                JsonRpcRequest {
                    jsonrpc: j,
                    id: non_null(field(v, "id"@)),
                    method: m,
                    params: non_null(field(v, "params"@)),
                    session_id: sid,
                    agent_id: aid,
                },
            ),
            _ => None,
        },
        _ => None,
    }
}

/// An optional string member that a reader accepts: absent, `null` or a
/// string.
pub open spec fn text_or_absent(v: Option<JsonValue>) -> bool {
    v is None || v == Some(JsonValue::Null) || v matches Some(JsonValue::String(_))
}

/// Reading a request: an object is read exactly when its `jsonrpc` and
/// `method` are strings and its `sessionId` and `agentId` are strings or
/// absent, and the request read holds the object's members as they are:
/// its `params` and `id` when present and not `null` (none otherwise), its
/// method, protocol text and routing strings.
pub proof fn lemma_request_reading(v: JsonValue)
    ensures
        decode_request(v) is Some <==> (field(v, "jsonrpc"@) matches Some(JsonValue::String(_))
            && field(v, "method"@) matches Some(JsonValue::String(_)) && text_or_absent(
            field(v, "sessionId"@),
        ) && text_or_absent(field(v, "agentId"@))),
        decode_request(v) matches Some(r) ==> {
            &&& field(v, "jsonrpc"@) == Some(JsonValue::String(r.jsonrpc))
            &&& field(v, "method"@) == Some(JsonValue::String(r.method))
            &&& (field(v, "params"@) is Some && !(field(v, "params"@)->0 is Null) ==> r.params
                == field(v, "params"@))
            &&& (field(v, "params"@) is None || field(v, "params"@) == Some(JsonValue::Null)
                ==> r.params is None)
            &&& (field(v, "id"@) is Some && !(field(v, "id"@)->0 is Null) ==> r.id == field(
                v,
                "id"@,
            ))
            &&& (field(v, "id"@) is None || field(v, "id"@) == Some(JsonValue::Null) ==> r.id is None)
            &&& (field(v, "sessionId"@) matches Some(JsonValue::String(_)) ==> (r.session_id matches Some(t)
                && field(v, "sessionId"@) == Some(JsonValue::String(t))))
            &&& (field(v, "agentId"@) matches Some(JsonValue::String(_)) ==> (r.agent_id matches Some(t)
                && field(v, "agentId"@) == Some(JsonValue::String(t))))
        },
{
}

/// The value stored under `key` in a member list: the first member with
/// that key.
pub open spec fn member_lookup(ms: Seq<(Seq<char>, JsonValue)>, key: Seq<char>) -> Option<JsonValue>
    decreases ms.len(),
{
    if ms.len() == 0 {
        None
    } else if ms[0].0 == key {
        Some(ms[0].1)
    } else {
        member_lookup(ms.drop_first(), key)
    }
}

proof fn lemma_lookup_by_members(es: Seq<(String, JsonValue)>, key: Seq<char>)
    ensures
        lookup(es, key) == member_lookup(members(es), key),
    decreases es.len(),
{
    if es.len() > 0 {
        assert(members(es).drop_first() =~= members(es.drop_first()));
        lemma_lookup_by_members(es.drop_first(), key);
    }
}

proof fn lemma_member_lookup_concat(
    a: Seq<(Seq<char>, JsonValue)>,
    b: Seq<(Seq<char>, JsonValue)>,
    key: Seq<char>,
)
    ensures
        member_lookup(a + b, key) == (match member_lookup(a, key) {
            Some(x) => Some(x),
            None => member_lookup(b, key),
        }),
    decreases a.len(),
{
    if a.len() > 0 {
        assert((a + b).drop_first() =~= a.drop_first() + b);
        lemma_member_lookup_concat(a.drop_first(), b, key);
    } else {
        assert(a + b =~= b);
    }
}

/// What the members of a rendered request hold under `key`.
proof fn lemma_request_member(req: JsonRpcRequest, key: Seq<char>)
    ensures
        member_lookup(request_members(req), key) == (if key == "jsonrpc"@ {
            Some(JsonValue::String(req.jsonrpc))
        } else if key == "id"@ {
            req.id
        } else if key == "method"@ {
            Some(JsonValue::String(req.method))
        } else if key == "params"@ {
            req.params
        } else if key == "sessionId"@ {
            match req.session_id {
                Some(t) => Some(JsonValue::String(t)),
                None => None,
            }
        } else if key == "agentId"@ {
            match req.agent_id {
                Some(t) => Some(JsonValue::String(t)),
                None => None,
            }
        } else {
            None
        }),
{
    reveal_strlit("jsonrpc");
    reveal_strlit("id");
    reveal_strlit("method");
    reveal_strlit("params");
    reveal_strlit("sessionId");
    reveal_strlit("agentId");
    assert("method"@[0] != "params"@[0]);
    let a = seq![("jsonrpc"@, JsonValue::String(req.jsonrpc))];
    let b = optional_member("id"@, req.id);
    let c = seq![("method"@, JsonValue::String(req.method))];
    let d = optional_member("params"@, req.params);
    let e = optional_text_member("sessionId"@, req.session_id);
    let f = optional_text_member("agentId"@, req.agent_id);
    assert(request_members(req) == a + b + c + d + e + f);
    lemma_member_lookup_concat(a + b + c + d + e, f, key);
    lemma_member_lookup_concat(a + b + c + d, e, key);
    lemma_member_lookup_concat(a + b + c, d, key);
    lemma_member_lookup_concat(a + b, c, key);
    lemma_member_lookup_concat(a, b, key);
    assert("agentId"@[0] != "jsonrpc"@[0]);
    assert("id"@.len() == 2 && "sessionId"@.len() == 9 && "agentId"@.len() == 7 && "params"@.len()
        == 6 && "method"@.len() == 6 && "jsonrpc"@.len() == 7);
    assert(a.drop_first() =~= Seq::<(Seq<char>, JsonValue)>::empty());
    assert(c.drop_first() =~= Seq::<(Seq<char>, JsonValue)>::empty());
    assert(member_lookup(a, key) == (if key == "jsonrpc"@ { Some(JsonValue::String(req.jsonrpc)) } else { None }));
    assert(member_lookup(c, key) == (if key == "method"@ { Some(JsonValue::String(req.method)) } else { None }));
    if b.len() > 0 {
        assert(b.drop_first() =~= Seq::<(Seq<char>, JsonValue)>::empty());
        assert(member_lookup(b, key) == (if key == "id"@ { req.id } else { None }));
    }
    if d.len() > 0 {
        assert(d.drop_first() =~= Seq::<(Seq<char>, JsonValue)>::empty());
        assert(member_lookup(d, key) == (if key == "params"@ { req.params } else { None }));
    }
    match req.session_id {
        Some(t) => {
            assert(e.drop_first() =~= Seq::<(Seq<char>, JsonValue)>::empty());
            assert(member_lookup(e, key) == (if key == "sessionId"@ {
                Some(JsonValue::String(t))
            } else {
                None
            }));
        },
        None => {
            assert(member_lookup(e, key) is None);
        },
    }
    match req.agent_id {
        Some(t) => {
            assert(f.drop_first() =~= Seq::<(Seq<char>, JsonValue)>::empty());
            assert(member_lookup(f, key) == (if key == "agentId"@ {
                Some(JsonValue::String(t))
            } else {
                None
            }));
        },
        None => {
            assert(member_lookup(f, key) is None);
        },
    }
    match req.id {
        Some(x) => {},
        None => {
            assert(member_lookup(b, key) is None);
        },
    }
    match req.params {
        Some(x) => {},
        None => {
            assert(member_lookup(d, key) is None);
        },
    }
}

/// A request reads back as it was rendered: the JSON object of a request
/// (see [`JsonRpcRequest::into_value`]) reads as the same request, with the
/// same protocol text, id, method, params and routing strings, provided its
/// id and params are not JSON `null` (which reads as absent).
pub proof fn lemma_request_reads_back(req: JsonRpcRequest, v: JsonValue)
    requires
        v matches JsonValue::Object(es) && members(es@) == request_members(req),
        req.id != Some(JsonValue::Null),
        req.params != Some(JsonValue::Null),
    ensures
        decode_request(v) matches Some(r) && r.jsonrpc == req.jsonrpc && r.id == req.id
            && r.method == req.method && r.params == req.params && r.session_id == req.session_id
            && r.agent_id == req.agent_id,
{
    let es = v->Object_0@;
    lemma_lookup_by_members(es, "jsonrpc"@);
    lemma_lookup_by_members(es, "id"@);
    lemma_lookup_by_members(es, "method"@);
    lemma_lookup_by_members(es, "params"@);
    lemma_lookup_by_members(es, "sessionId"@);
    lemma_lookup_by_members(es, "agentId"@);
    reveal_strlit("jsonrpc");
    reveal_strlit("id");
    reveal_strlit("method");
    reveal_strlit("params");
    reveal_strlit("sessionId");
    reveal_strlit("agentId");
    assert("method"@[0] != "params"@[0]);
    assert("agentId"@[0] != "jsonrpc"@[0]);
    assert("id"@.len() == 2 && "sessionId"@.len() == 9 && "agentId"@.len() == 7 && "params"@.len()
        == 6 && "method"@.len() == 6 && "jsonrpc"@.len() == 7);
    lemma_request_member(req, "jsonrpc"@);
    lemma_request_member(req, "id"@);
    lemma_request_member(req, "method"@);
    lemma_request_member(req, "params"@);
    lemma_request_member(req, "sessionId"@);
    lemma_request_member(req, "agentId"@);
}

fn take_optional_text(v: Option<JsonValue>) -> (r: Option<Option<String>>)
    ensures
        r == optional_text(v),
{
    match v {
        None => Some(None),
        Some(JsonValue::Null) => Some(None),
        Some(JsonValue::String(t)) => Some(Some(t)),
        Some(_) => None,
    }
}

fn pop_slot(slots: &mut Vec<Option<JsonValue>>) -> (r: Option<JsonValue>)
    requires
        old(slots)@.len() > 0,
    ensures
        r == old(slots)@.last(),
        final(slots)@ == old(slots)@.drop_last(),
{
    match slots.pop() {
        Some(v) => v,
        None => None,
    }
}

impl JsonRpcRequest {
    /// Reads a request from its JSON value.
    pub fn from_value(v: JsonValue) -> (r: Option<JsonRpcRequest>)
        ensures
            r == decode_request(v),
    {
        match v {
            JsonValue::Object(entries) => {
                proof {
                    reveal_strlit("jsonrpc");
                    reveal_strlit("id");
                    reveal_strlit("method");
                    reveal_strlit("params");
                    reveal_strlit("sessionId");
                    reveal_strlit("agentId");
                }
                let mut keys: Vec<String> = Vec::new();
                keys.push("jsonrpc".to_string());
                keys.push("id".to_string());
                keys.push("method".to_string());
                keys.push("params".to_string());
                keys.push("sessionId".to_string());
                keys.push("agentId".to_string());
                assert(keys@[0]@ == "jsonrpc"@ && keys@[1]@ == "id"@ && keys@[2]@ == "method"@
                    && keys@[3]@ == "params"@ && keys@[4]@ == "sessionId"@ && keys@[5]@
                    == "agentId"@);
                assert forall|i: int, j: int|
                    0 <= i < keys@.len() && 0 <= j < keys@.len() && i != j implies keys@[i]@
                    != keys@[j]@ by {
                    assert(keys@[i]@[0] != keys@[j]@[0]);
                }
                let mut slots = take_fields(entries, &keys);
                let agent = pop_slot(&mut slots);
                let session = pop_slot(&mut slots);
                let params = pop_slot(&mut slots);
                let method = pop_slot(&mut slots);
                let id = pop_slot(&mut slots);
                let jsonrpc = pop_slot(&mut slots);
                let jsonrpc = match jsonrpc {
                    Some(JsonValue::String(t)) => t,
                    _ => {
                        return None;
                    },
                };
                let method = match method {
                    Some(JsonValue::String(t)) => t,
                    _ => {
                        return None;
                    },
                };
                let session_id = match take_optional_text(session) {
                    Some(t) => t,
                    None => {
                        return None;
                    },
                };
                let agent_id = match take_optional_text(agent) {
                    Some(t) => t,
                    None => {
                        return None;
                    },
                };
                Some(
                    JsonRpcRequest {
                        jsonrpc,
                        id: take_non_null(id),
                        method,
                        params: take_non_null(params),
                        session_id,
                        agent_id,
                    },
                )
            },
            _ => None,
        }
    }
}

impl JsonRpcError {
    /// Reads an error member.
    pub fn from_value(v: JsonValue) -> (r: Option<JsonRpcError>)
        ensures
            r == decode_error(v),
    {
        match v {
            JsonValue::Object(entries) => {
                let ghost es = entries@;
                proof {
                    reveal_strlit("code");
                    reveal_strlit("message");
                    reveal_strlit("data");
                }
                let mut keys: Vec<String> = Vec::new();
                keys.push("code".to_string());
                keys.push("message".to_string());
                keys.push("data".to_string());
                assert(keys@[0]@ == "code"@ && keys@[1]@ == "message"@ && keys@[2]@ == "data"@);
                assert("code"@[0] == 'c' && "data"@[0] == 'd');
                assert(keys@[0]@ != keys@[1]@ && keys@[0]@ != keys@[2]@ && keys@[1]@ != keys@[2]@);
                let mut slots = take_fields(entries, &keys);
                let data = pop_slot(&mut slots);
                let message = pop_slot(&mut slots);
                let code = pop_slot(&mut slots);
                match (code, message) {
                    (Some(JsonValue::Number(t)), Some(JsonValue::String(m))) => {
                        match parse_i64(t.as_str()) {
                            Some(c) => Some(
                                JsonRpcError { code: c, message: m, data: take_non_null(data) },
                            ),
                            None => None,
                        }
                    },
                    _ => None,
                }
            },
            _ => None,
        }
    }
}

impl JsonRpcResponse {
    /// Reads a response from its JSON value.
    pub fn from_value(v: JsonValue) -> (r: Option<JsonRpcResponse>)
        ensures
            r == decode_response(v),
    {
        match v {
            JsonValue::Object(entries) => {
                proof {
                    reveal_strlit("jsonrpc");
                    reveal_strlit("id");
                    reveal_strlit("result");
                    reveal_strlit("error");
                }
                let mut keys: Vec<String> = Vec::new();
                keys.push("jsonrpc".to_string());
                keys.push("id".to_string());
                keys.push("result".to_string());
                keys.push("error".to_string());
                assert(keys@[0]@ == "jsonrpc"@ && keys@[1]@ == "id"@ && keys@[2]@ == "result"@
                    && keys@[3]@ == "error"@);
                assert(keys@[0]@ != keys@[1]@ && keys@[0]@ != keys@[2]@ && keys@[0]@ != keys@[3]@
                    && keys@[1]@ != keys@[2]@ && keys@[1]@ != keys@[3]@ && keys@[2]@ != keys@[3]@);
                let mut slots = take_fields(entries, &keys);
                let error = pop_slot(&mut slots);
                let result = pop_slot(&mut slots);
                let id = pop_slot(&mut slots);
                let jsonrpc = pop_slot(&mut slots);
                let jsonrpc = match jsonrpc {
                    Some(JsonValue::String(s)) => s,
                    _ => {
                        return None;
                    },
                };
                let error = match take_non_null(error) {
                    None => None,
                    Some(ev) => match JsonRpcError::from_value(ev) {
                        Some(e) => Some(e),
                        None => {
                            return None;
                        },
                    },
                };
                Some(
                    JsonRpcResponse {
                        jsonrpc,
                        id: take_non_null(id),
                        result: take_non_null(result),
                        error,
                    },
                )
            },
            _ => None,
        }
    }
}

} // verus!
