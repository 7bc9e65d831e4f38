//! The decisions of the bus client: what a request or notification sends,
//! what an incoming message does to the waiting requests, and what a
//! finished request answers. The runtime that awaits, sends and receives
//! hands each event to these functions and performs what they return.
use crate::builder::StdioBusBuilder;
use crate::duration::duration_millis;
use crate::error::Error;
use crate::ids::generate_client_session_id;
use crate::json::{entries_with, field, field_text, json_parsed, parse_json, text_of, JsonValue};
use crate::message::{decode_response, request_members, JsonRpcRequest, JsonRpcResponse};
use crate::pending::PendingTable;
use crate::state::BusState;
use crate::text::{concat_all, signed_decimal, signed_decimal_string};
use crate::types::RequestOptions;
use std::time::Duration;
use vstd::prelude::*;

verus! {

/// A request ready to be sent.
#[derive(Debug)]
pub struct OutgoingRequest {
    /// The request id, under which the response is awaited
    pub id: String,
    /// The request to send
    pub request: JsonRpcRequest,
    /// How long to wait for the response
    pub timeout: Duration,
}

/// How the wait for a response ended.
#[derive(Debug)]
pub enum RequestOutcome {
    /// No response arrived within the timeout
    TimedOut(Duration),
    /// The response slot was dropped without an answer
    ChannelClosed,
    /// A response arrived, with the text streamed while waiting
    Responded { response: JsonRpcResponse, text: String },
}

/// What to do with an incoming message.
#[derive(Debug)]
pub enum IncomingAction {
    /// Broadcast this notification to the subscribers
    Notify(JsonValue),
    /// Hand this response and the streamed text to the request `id`
    Deliver { id: String, response: JsonRpcResponse, text: String },
    /// The request `id` is answered by something that is not a response:
    /// drop its response slot
    Discard { id: String },
    /// Nothing to do
    Ignore,
}

/// The error for an operation that needs a running bus.
pub open spec fn is_not_running_error(e: Error, state: BusState) -> bool {
    e matches Error::InvalidState { expected, actual } && expected@ == "RUNNING"@ && actual@
        == state.name()
}

/// A message with a `method` and no `id` is a notification.
pub open spec fn is_notification(msg: JsonValue) -> bool {
    field(msg, "method"@) is Some && field(msg, "id"@) is None
}

/// The text of a streamed agent message chunk: a notification whose
/// `params.update.sessionUpdate` is `agent_message_chunk` and whose
/// `params.update.content.text` is a string.
pub open spec fn chunk_text(msg: JsonValue) -> Option<Seq<char>> {
    match field(msg, "params"@) {
        Some(params) => match field(params, "update"@) {
            Some(update) => if field_text(update, "sessionUpdate"@) == Some(
                "agent_message_chunk"@,
            ) {
                match field(update, "content"@) {
                    Some(content) => field_text(content, "text"@),
                    None => None,
                }
            } else {
                None
            },
            None => None,
        },
        None => None,
    }
}

/// Every waiting request with one more chunk.
pub open spec fn with_chunk(m: Map<Seq<char>, Seq<Seq<char>>>, t: Seq<char>) -> Map<
    Seq<char>,
    Seq<Seq<char>>,
> {
    Map::new(|k: Seq<char>| m.contains_key(k), |k: Seq<char>| m[k].push(t))
}

/// The waiting requests after the chunks `cs` were streamed, in order.
pub open spec fn with_chunks(m: Map<Seq<char>, Seq<Seq<char>>>, cs: Seq<Seq<char>>) -> Map<
    Seq<char>,
    Seq<Seq<char>>,
>
    decreases cs.len(),
{
    if cs.len() == 0 {
        m
    } else {
        with_chunk(with_chunks(m, cs.drop_last()), cs.last())
    }
}

/// Streamed text is aggregated per request: a request registered with no
/// chunk and then streamed the chunks `cs` holds exactly `cs`, so the text
/// handed over with its response is their concatenation in order; every
/// other waiting request gets the same chunks after its own; and once the
/// response is handed over the request is no longer waiting, so a second
/// response with the same id is ignored.
pub proof fn lemma_streamed_text_aggregation(
    m: Map<Seq<char>, Seq<Seq<char>>>,
    id: Seq<char>,
    cs: Seq<Seq<char>>,
)
    ensures
        with_chunks(m.insert(id, Seq::empty()), cs).dom() == m.insert(id, Seq::empty()).dom(),
        with_chunks(m.insert(id, Seq::empty()), cs)[id] == cs,
        forall|k: Seq<char>|
            k != id && #[trigger] m.contains_key(k) ==> with_chunks(m.insert(id, Seq::empty()), cs)[k]
                == m[k] + cs,
        !with_chunks(m.insert(id, Seq::empty()), cs).remove(id).contains_key(id),
    decreases cs.len(),
{
    let m0 = m.insert(id, Seq::<Seq<char>>::empty());
    if cs.len() == 0 {
        assert(m0[id] =~= cs);
        assert forall|k: Seq<char>| k != id && #[trigger] m.contains_key(k) implies m0[k] == m[k]
            + cs by {
            assert(m[k] + cs =~= m[k]);
        }
    } else {
        lemma_streamed_text_aggregation(m, id, cs.drop_last());
        let prev = with_chunks(m0, cs.drop_last());
        assert(cs.drop_last().push(cs.last()) =~= cs);
        assert forall|k: Seq<char>| k != id && #[trigger] m.contains_key(k) implies with_chunks(
            m0,
            cs,
        )[k] == m[k] + cs by {
            assert(prev[k] == m[k] + cs.drop_last());
            assert((m[k] + cs.drop_last()).push(cs.last()) =~= m[k] + cs);
        }
        assert(with_chunks(m0, cs).dom() =~= prev.dom());
    }
}

/// What handling the message `msg` does to the waiting requests (`before`
/// becomes `after`) and what it answers (`r`). A notification is broadcast,
/// and when it streams an agent message chunk the chunk is added to every
/// waiting request. A message whose string `id` names a waiting request
/// completes that request: it gets the response (or, when the message is
/// not a response, its slot is dropped) together with the chunks joined in
/// order. Anything else is ignored.
pub open spec fn message_handled(
    before: Map<Seq<char>, Seq<Seq<char>>>,
    after: Map<Seq<char>, Seq<Seq<char>>>,
    msg: JsonValue,
    r: IncomingAction,
) -> bool {
    &&& is_notification(msg) ==> r == IncomingAction::Notify(msg) && after == (match chunk_text(
        msg,
    ) {
        Some(t) => with_chunk(before, t),
        None => before,
    })
    &&& !is_notification(msg) ==> match field_text(msg, "id"@) {
        Some(id) => if before.contains_key(id) {
            after == before.remove(id) && match decode_response(msg) {
                Some(resp) => r matches IncomingAction::Deliver { id: rid, response, text } && rid@
                    == id && response == resp && text@ == concat_all(before[id]),
                None => r matches IncomingAction::Discard { id: rid } && rid@ == id,
            }
        } else {
            r is Ignore && after == before
        },
        None => r is Ignore && after == before,
    }
}

/// A response for a waiting request is handed to that request, whether it
/// carries a result or an error: a message with a string `id` that names a
/// waiting request and that reads as a JSON-RPC response is delivered with
/// exactly that response and the chunks streamed to the request, joined in
/// order, and the request stops waiting. Its slot is dropped without an
/// answer only when the message does not read as a response.
pub proof fn lemma_responses_reach_their_request(
    before: Map<Seq<char>, Seq<Seq<char>>>,
    after: Map<Seq<char>, Seq<Seq<char>>>,
    msg: JsonValue,
    r: IncomingAction,
    id: Seq<char>,
)
    requires
        message_handled(before, after, msg, r),
        field_text(msg, "id"@) == Some(id),
        before.contains_key(id),
    ensures
        !after.contains_key(id),
        forall|k: Seq<char>| k != id ==> (after.contains_key(k) <==> before.contains_key(k)),
        decode_response(msg) matches Some(resp) ==> (r matches IncomingAction::Deliver {
            id: rid,
            response,
            text,
        } && rid@ == id && response == resp && response.error == resp.error && response.result
            == resp.result && text@ == concat_all(before[id])),
        decode_response(msg) is None ==> (r matches IncomingAction::Discard { id: rid } && rid@
            == id),
{
    assert(field(msg, "id"@) is Some);
}

/// A JSON-RPC error response reads as a response that carries the error: an
/// object with a string `jsonrpc` and an `error` object with an integer
/// `code` and a string `message` is a response, whatever else it holds.
pub proof fn lemma_error_responses_are_responses(msg: JsonValue, j: String, ev: JsonValue, code: String, message: String)
    requires
        field(msg, "jsonrpc"@) == Some(JsonValue::String(j)),
        field(msg, "error"@) == Some(ev),
        field(ev, "code"@) == Some(JsonValue::Number(code)),
        field(ev, "message"@) == Some(JsonValue::String(message)),
        crate::json::integer_text_i64(code@) is Some,
    ensures
        decode_response(msg) matches Some(resp) && resp.jsonrpc == j && (resp.error matches Some(e)
            && e.code == crate::json::integer_text_i64(code@)->0 && e.message == message),
{
}

/// The message of the error a failed response turns into: `{code}: {message}`.
pub open spec fn response_error_text(code: i64, message: Seq<char>) -> Seq<char> {
    signed_decimal(code as int) + ": "@ + message
}

/// The result a successful response yields: its `result` (an empty object
/// when absent), with a `text` member set to the streamed text when that
/// text is not empty and the result is an object.
pub open spec fn is_result_with_text(v: JsonValue, result: Option<JsonValue>, text: String) -> bool {
    match result {
        Some(JsonValue::Object(es)) => if text@.len() > 0 {
            v matches JsonValue::Object(es2) && exists|k: String|
                k@ == "text"@ && es2@ == entries_with(es@, k, JsonValue::String(text))
        } else {
            v == JsonValue::Object(es)
        },
        Some(other) => v == other,
        None => v matches JsonValue::Object(es2) && if text@.len() > 0 {
            exists|k: String| k@ == "text"@ && es2@ == seq![(k, JsonValue::String(text))]
        } else {
            es2@.len() == 0
        },
    }
}

fn chunk_of(msg: &JsonValue) -> (r: Option<&String>)
    ensures
        match r {
            Some(t) => chunk_text(*msg) == Some(t@),
            None => chunk_text(*msg) is None,
        },
{
    let params = match msg.get("params") {
        Some(p) => p,
        None => return None,
    };
    let update = match params.get("update") {
        Some(u) => u,
        None => return None,
    };
    let kind = match update.get("sessionUpdate") {
        Some(k) => k,
        None => return None,
    };
    let kind = match kind.as_str() {
        Some(k) => k,
        None => return None,
    };
    let expected = "agent_message_chunk".to_string();
    if *kind != expected {
        return None;
    }
    let content = match update.get("content") {
        Some(c) => c,
        None => return None,
    };
    let text = match content.get("text") {
        Some(t) => t,
        None => return None,
    };
    text.as_str()
}

/// The verified state of a bus client: its session id, its default timeout
/// and the requests that wait for a response.
pub struct StdioBus {
    client_session_id: String,
    default_timeout: Duration,
    pending: PendingTable,
}

impl StdioBus {
    /// The client's state is consistent.
    pub closed spec fn wf(&self) -> bool {
        self.pending.wf()
    }

    /// The requests waiting for a response, with the chunks streamed to each.
    pub closed spec fn pending_view(&self) -> Map<Seq<char>, Seq<Seq<char>>> {
        self.pending@
    }

    /// The session id that routes this client's messages by default.
    pub closed spec fn session_view(&self) -> Seq<char> {
        self.client_session_id@
    }

    /// The timeout of requests that set none.
    pub closed spec fn default_timeout_view(&self) -> Duration {
        self.default_timeout
    }

    /// Create a new builder.
    pub fn builder() -> (r: StdioBusBuilder)
        ensures
            r.is_initial(),
    {
        StdioBusBuilder::new()
    }

    /// A client with the given session id and default timeout, and no
    /// waiting request.
    pub fn with_session(client_session_id: String, default_timeout: Duration) -> (r: StdioBus)
        ensures
            r.wf(),
            r.session_view() == client_session_id@,
            r.default_timeout_view() == default_timeout,
            r.pending_view() == Map::<Seq<char>, Seq<Seq<char>>>::empty(),
    {
        StdioBus { client_session_id, default_timeout, pending: PendingTable::new() }
    }

    /// A client with a freshly generated session id.
    pub fn new(default_timeout: Duration) -> (r: StdioBus)
        ensures
            r.wf(),
            exists|ts: nat, u: Seq<char>|
                crate::ids::is_v4_uuid_text(u) && r.session_view()
                    == crate::ids::session_id_text(ts, u.subrange(0, 6)),
            r.default_timeout_view() == default_timeout,
            r.pending_view() == Map::<Seq<char>, Seq<Seq<char>>>::empty(),
    {
        StdioBus::with_session(generate_client_session_id(), default_timeout)
    }

    /// Get the client session id used for routing.
    pub fn client_session_id(&self) -> (r: &str)
        ensures
            r@ == self.session_view(),
    {
        self.client_session_id.as_str()
    }

    /// The timeout of requests that set none.
    pub fn default_timeout(&self) -> (r: Duration)
        ensures
            r == self.default_timeout_view(),
    {
        self.default_timeout
    }

    /// Number of requests waiting for a response.
    pub fn pending_count(&self) -> (r: usize)
        requires
            self.wf(),
        ensures
            r == self.pending_view().len(),
    {
        self.pending.len()
    }

    fn require_running(state: BusState) -> (r: Result<(), Error>)
        ensures
            state == BusState::Running ==> r is Ok,
            state != BusState::Running ==> (r matches Err(e) && is_not_running_error(e, state)),
    {
        if state != BusState::Running {
            proof {
                reveal_strlit("RUNNING");
            }
            return Err(
                Error::InvalidState { expected: "RUNNING".to_string(), actual: state.to_string() },
            );
        }
        Ok(())
    }

    /// Prepares a request with the given id: refused unless the bus is
    /// running; otherwise routed to the options' session (this client's
    /// session by default) and agent, and waited for up to the options'
    /// timeout (the default timeout when unset).
    pub fn prepare_request_with_id(
        &self,
        state: BusState,
        method: &str,
        params: JsonValue,
        options: RequestOptions,
        id: String,
    ) -> (r: Result<OutgoingRequest, Error>)
        ensures
            state != BusState::Running ==> (r matches Err(e) && is_not_running_error(e, state)),
            state == BusState::Running ==> (r matches Ok(out) && out.id@ == id@ && out.timeout == (
            match options.timeout {
                Some(t) => t,
                None => self.default_timeout_view(),
            }) && out.request.jsonrpc@ == "2.0"@ && out.request.method@ == method@
                && out.request.id == Some(JsonValue::String(out.id)) && out.request.params == Some(
                params,
            ) && (out.request.session_id matches Some(s) && s@ == (match options.session_id {
                Some(o) => o@,
                None => self.session_view(),
            })) && (match options.agent_id {
                Some(a) => out.request.agent_id matches Some(b) && b@ == a@,
                None => out.request.agent_id is None,
            })),
    {
        Self::require_running(state)?;
        let request = JsonRpcRequest::with_id(method, Some(params), id);
        let request = match &options.session_id {
            Some(s) => request.with_session_id(s.as_str()),
            None => request.with_session_id(self.client_session_id.as_str()),
        };
        let request = match &options.agent_id {
            Some(a) => request.with_agent_id(a.as_str()),
            None => request,
        };
        let id = match request.id_text() {
            Some(s) => s.clone(),
            None => {
                return Err(Error::InternalError { message: "Request ID not set".to_string() });
            },
        };
        let timeout = match options.timeout {
            Some(t) => t,
            None => self.default_timeout,
        };
        Ok(OutgoingRequest { id, request, timeout })
    }

    /// Prepares a request with a fresh random id (see
    /// [`StdioBus::prepare_request_with_id`]).
    pub fn prepare_request(
        &self,
        state: BusState,
        method: &str,
        params: JsonValue,
        options: RequestOptions,
    ) -> (r: Result<OutgoingRequest, Error>)
        ensures
            state != BusState::Running ==> (r matches Err(e) && is_not_running_error(e, state)),
            state == BusState::Running ==> (r matches Ok(out) && crate::ids::is_v4_uuid_text(
                out.id@,
            ) && out.timeout == (match options.timeout {
                Some(t) => t,
                None => self.default_timeout_view(),
            }) && out.request.jsonrpc@ == "2.0"@ && out.request.method@ == method@
                && out.request.id == Some(JsonValue::String(out.id)) && out.request.params == Some(
                params,
            ) && (out.request.session_id matches Some(s) && s@ == (match options.session_id {
                Some(o) => o@,
                None => self.session_view(),
            })) && (match options.agent_id {
                Some(a) => out.request.agent_id matches Some(b) && b@ == a@,
                None => out.request.agent_id is None,
            })),
    {
        let id = crate::ids::fresh_uuid();
        self.prepare_request_with_id(state, method, params, options, id)
    }

    /// Prepares a notification: refused unless the bus is running; routed to
    /// this client's session.
    pub fn prepare_notification(&self, state: BusState, method: &str, params: JsonValue) -> (r:
        Result<JsonRpcRequest, Error>)
        ensures
            state != BusState::Running ==> (r matches Err(e) && is_not_running_error(e, state)),
            state == BusState::Running ==> (r matches Ok(n) && n.jsonrpc@ == "2.0"@ && n.id is None
                && n.method@ == method@ && n.params == Some(params) && (n.session_id matches Some(s)
                && s@ == self.session_view()) && n.agent_id is None),
    {
        Self::require_running(state)?;
        let n = JsonRpcRequest::notification(method, Some(params));
        Ok(n.with_session_id(self.client_session_id.as_str()))
    }

    /// Starts waiting for the response to request `id`, with no chunk yet.
    pub fn register_pending(&mut self, id: String)
        requires
            old(self).wf(),
        ensures
            final(self).wf(),
            final(self).pending_view() == old(self).pending_view().insert(id@, Seq::empty()),
            final(self).session_view() == old(self).session_view(),
            final(self).default_timeout_view() == old(self).default_timeout_view(),
    {
        self.pending.register(id);
    }

    /// Handles a message from the bus. A notification is broadcast, and when
    /// it streams an agent message chunk the chunk is added to every waiting
    /// request. A message whose string `id` names a waiting request completes
    /// that request: it gets the response (or, when the message is not a
    /// response, its slot is dropped) together with the chunks joined in
    /// order. Anything else is ignored.
    pub fn on_message(&mut self, msg: JsonValue) -> (r: IncomingAction)
        requires
            old(self).wf(),
        ensures
            final(self).wf(),
            final(self).session_view() == old(self).session_view(),
            final(self).default_timeout_view() == old(self).default_timeout_view(),
            message_handled(old(self).pending_view(), final(self).pending_view(), msg, r),
    {
        let has_method = msg.get("method").is_some();
        let has_id = msg.get("id").is_some();
        if has_method && !has_id {
            match chunk_of(&msg) {
                Some(t) => {
                    self.pending.append_chunk(t.as_str());
                    proof {
                        assert(self.pending@ =~= with_chunk(old(self).pending@, t@));
                    }
                },
                None => {},
            }
            return IncomingAction::Notify(msg);
        }
        let id = match msg.get("id") {
            Some(v) => match v.as_str() {
                Some(s) => s.clone(),
                None => return IncomingAction::Ignore,
            },
            None => return IncomingAction::Ignore,
        };
        match self.pending.complete(id.as_str()) {
            Some(text) => match JsonRpcResponse::from_value(msg) {
                Some(response) => IncomingAction::Deliver { id, response, text },
                None => IncomingAction::Discard { id },
            },
            None => IncomingAction::Ignore,
        }
    }

    /// Handles a message from the bus given as its JSON text: text that is
    /// not JSON is ignored; otherwise the parsed message is handled as
    /// [`StdioBus::on_message`] handles it.
    pub fn on_message_text(&mut self, json: &str) -> (r: IncomingAction)
        requires
            old(self).wf(),
        ensures
            final(self).wf(),
            final(self).session_view() == old(self).session_view(),
            final(self).default_timeout_view() == old(self).default_timeout_view(),
            json_parsed(json@) is None ==> r is Ignore && final(self).pending_view() == old(
                self,
            ).pending_view(),
            json_parsed(json@) matches Some(msg) ==> message_handled(
                old(self).pending_view(),
                final(self).pending_view(),
                msg,
                r,
            ),
    {
        match parse_json(json) {
            Some(msg) => self.on_message(msg),
            None => IncomingAction::Ignore,
        }
    }

    /// What a request answers once its wait has ended: a timeout error after
    /// the wait timed out, an internal error when the response slot was
    /// dropped, a transport error `{code}: {message}` for an error response,
    /// and otherwise the response's result with the streamed text.
    pub fn finish_request(outcome: RequestOutcome) -> (r: Result<JsonValue, Error>)
        ensures
            outcome matches RequestOutcome::TimedOut(t) ==> (r matches Err(
                Error::Timeout { timeout_ms },
            ) && timeout_ms as int == duration_millis(t) % 0x1_0000_0000_0000_0000),
            outcome is ChannelClosed ==> (r matches Err(Error::InternalError { message })
                && message@ == "Response channel closed"@),
            outcome matches RequestOutcome::Responded { response, text } ==> match response.error {
                Some(e) => r matches Err(Error::TransportError { message }) && message@
                    == response_error_text(e.code, e.message@),
                None => r matches Ok(v) && is_result_with_text(v, response.result, text),
            },
    {
        match outcome {
            RequestOutcome::TimedOut(t) => {
                let ms: u128 = t.as_millis();
                let timeout_ms: u64 = #[verifier::truncate] (ms as u64);
                assert(timeout_ms == ms % 0x1_0000_0000_0000_0000) by (bit_vector)
                    requires
                        timeout_ms == #[verifier::truncate] (ms as u64),
                ;
                assert(ms == duration_millis(t));
                assert(timeout_ms as int == duration_millis(t) % 0x1_0000_0000_0000_0000);
                Err(Error::Timeout { timeout_ms })
            },
            RequestOutcome::ChannelClosed => Err(
                Error::InternalError { message: "Response channel closed".to_string() },
            ),
            RequestOutcome::Responded { response, text } => {
                match response.error {
                    Some(e) => {
                        let mut message = signed_decimal_string(e.code);
                        message.append(": ");
                        message.append(e.message.as_str());
                        Err(Error::TransportError { message })
                    },
                    None => {
                        let ghost original = response.result;
                        let ghost t = text;
                        let mut result = match response.result {
                            Some(v) => v,
                            None => JsonValue::empty_object(),
                        };
                        let ghost base = result;
                        if text.as_str().unicode_len() > 0 {
                            let key = "text".to_string();
                            let ghost k = key;
                            result.insert(key, JsonValue::String(text));
                            proof {
                                match base {
                                    JsonValue::Object(es) => {
                                        assert(result matches JsonValue::Object(es2) && es2@
                                            == entries_with(es@, k, JsonValue::String(t)));
                                        if original is None {
                                            assert(es@.len() == 0);
                                            assert(entries_with(es@, k, JsonValue::String(t))
                                                =~= seq![(k, JsonValue::String(t))]);
                                        }
                                    },
                                    _ => {},
                                }
                            }
                        }
                        Ok(result)
                    },
                }
            },
        }
    }
}

} // verus!
