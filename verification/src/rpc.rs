use vstd::prelude::*;
use std::collections::HashMap;
use crate::json::{Json, JsonMember, JsonNumber, json_get};
use crate::text::{decimal, decimal_string};
use crate::wire::{parsed_json, parse_json, json_text, json_line};
use crate::protocol::{RequestKind, RhoEvent, EventView, event_opt_view, notification_event, response_error_text, parse_notification, parse_response_error};

verus! {

broadcast use vstd::std_specs::hash::group_hash_axioms;

/// A JSON-RPC request ready to be written: its id, method and parameters.
#[derive(Debug)]
pub struct Outgoing {
    pub id: u64,
    pub method: String,
    pub params: Json,
}

/// The id of a message: its `id` field when that is an integer that fits in
/// `u64`.
pub open spec fn message_id(v: Json) -> Option<u64> {
    match json_get(v, "id"@) {
        Some(Json::Number(n)) => n.as_u64,
        _ => None,
    }
}

/// The event an answer to a tracked request of kind `kind` stands for.
pub open spec fn response_event(v: Json, kind: RequestKind) -> EventView {
    if json_get(v, "error"@) is Some {
        EventView::RequestError { kind: kind, error: response_error_text(v) }
    } else {
        EventView::Response {
            kind: kind,
            result: match json_get(v, "result"@) {
                Some(r) => r,
                None => Json::Null,
            },
        }
    }
}

/// Taking in the message `v` moves the awaited requests from `before` to
/// `after` and reports `r`: an answer (a message with an integer `id`) to an
/// awaited request is reported once, as the kind it was sent with, and is no
/// longer awaited; an answer to anything else is dropped; any other message
/// is read as a notification.
pub open spec fn accepted(before: Map<u64, RequestKind>, after: Map<u64, RequestKind>, v: Json, r: Option<EventView>) -> bool {
    match message_id(v) {
        Some(id) => if before.contains_key(id) {
            &&& after == before.remove(id)
            &&& r == Some(response_event(v, before[id]))
        } else {
            &&& after == before
            &&& r is None
        },
        None => {
            &&& after == before
            &&& r == notification_event(v)
        },
    }
}

/// `v` is a JSON object whose members are exactly `keys`, in order, each key
/// with the corresponding string or boolean value.
pub open spec fn is_string_member(m: JsonMember, key: Seq<char>, value: Seq<char>) -> bool {
    &&& m.key@ == key
    &&& m.value matches Json::Str(s) && s@ == value
}

/// `m` maps `key` to the boolean `value`.
pub open spec fn is_bool_member(m: JsonMember, key: Seq<char>, value: bool) -> bool {
    &&& m.key@ == key
    &&& m.value == Json::Bool(value)
}

/// `v` is an object without members.
pub open spec fn is_empty_object(v: Json) -> bool {
    v matches Json::Object(ms) && ms@.len() == 0
}

/// The bookkeeping of the JSON-RPC channel: the last id handed out and the
/// requests whose answers are still awaited.
#[derive(Debug)]
pub struct RpcState {
    next_id: u64,
    pending: HashMap<u64, RequestKind>,
}

impl RpcState {
    /// The id most recently handed out (0 before the first request).
    pub closed spec fn last_id(&self) -> u64 {
        self.next_id
    }

    /// The awaited requests, by id.
    pub closed spec fn pending(&self) -> Map<u64, RequestKind> {
        self.pending@
    }

    /// Every awaited request has an id that was handed out.
    pub closed spec fn wf(&self) -> bool {
        forall|id: u64| #[trigger] self.pending@.contains_key(id) ==> 1 <= id <= self.next_id
    }

    /// A channel on which no request has been sent.
    pub fn new() -> (r: Self)
        ensures
            r.wf(),
            r.last_id() == 0,
            r.pending() == Map::<u64, RequestKind>::empty(),
    {
        RpcState { next_id: 0, pending: HashMap::new() }
    }

    /// The id most recently handed out.
    pub fn last_request_id(&self) -> (r: u64)
        ensures
            r == self.last_id(),
    {
        self.next_id
    }

    /// Hands out the next id for a request of `method` with `params`; when
    /// `kind` is given, the answer is awaited and reported as that kind.
    pub fn issue(&mut self, method: &str, params: Json, kind: Option<RequestKind>) -> (r: Outgoing)
        requires
            old(self).wf(),
            old(self).last_id() < u64::MAX,
        ensures
            final(self).wf(),
            r.id == old(self).last_id() + 1,
            final(self).last_id() == r.id,
            r.method@ == method@,
            r.params == params,
            final(self).pending() == match kind {
                Some(k) => old(self).pending().insert(r.id, k),
                None => old(self).pending(),
            },
    {
        self.next_id = self.next_id + 1;
        let id = self.next_id;
        match kind {
            Some(k) => {
                self.pending.insert(id, k);
            },
            None => {},
        }
        Outgoing { id, method: String::from_str(method), params }
    }

    /// Decodes one message from the agent. An answer (a message with an
    /// integer `id`) to an awaited request becomes a `Response`, or a
    /// `RequestError` when it has an `error`, and is no longer awaited; an
    /// answer to anything else is dropped. Any other message is read as a
    /// notification.
    pub fn accept(&mut self, v: Json) -> (r: Option<RhoEvent>)
        requires
            old(self).wf(),
        ensures
            final(self).wf(),
            final(self).last_id() == old(self).last_id(),
            accepted(old(self).pending(), final(self).pending(), v, event_opt_view(r)),
    {
        let id = match v.get("id") {
            Some(Json::Number(n)) => n.as_u64,
            _ => None,
        };
        match id {
            Some(id) => {
                let kind = match self.pending.remove(&id) {
                    Some(k) => k,
                    None => {
                        assert(self.pending@ =~= old(self).pending@);
                        return None;
                    },
                };
                if v.get("error").is_some() {
                    let error = parse_response_error(&v);
                    Some(RhoEvent::RequestError { kind, error })
                } else {
                    let result = match v.take("result") {
                        Some(r) => r,
                        None => Json::Null,
                    };
                    Some(RhoEvent::Response { kind, result })
                }
            },
            None => parse_notification(&v),
        }
    }
}

impl RpcState {
    /// Decodes one line the agent wrote: JSON text, taken in as `accept`
    /// takes a message; a line that is not JSON is dropped.
    pub fn accept_line(&mut self, line: &str) -> (r: Option<RhoEvent>)
        requires
            old(self).wf(),
        ensures
            final(self).wf(),
            final(self).last_id() == old(self).last_id(),
            match parsed_json(line@) {
                Some(v) => accepted(old(self).pending(), final(self).pending(), v, event_opt_view(r)),
                None => final(self).pending() == old(self).pending() && r is None,
            },
    {
        match parse_json(line) {
            Some(v) => self.accept(v),
            None => None,
        }
    }
}

/// `j` is the JSON-RPC 2.0 request object with the given id, method and
/// parameters: `{"jsonrpc": "2.0", "method": .., "params": .., "id": ..}`.
pub open spec fn is_jsonrpc_request(j: Json, id: u64, method: Seq<char>, params: Json) -> bool {
    j matches Json::Object(ms) && ms@.len() == 4
        && is_string_member(ms@[0], "jsonrpc"@, "2.0"@)
        && is_string_member(ms@[1], "method"@, method)
        && ms@[2].key@ == "params"@ && ms@[2].value == params
        && ms@[3].key@ == "id"@
        && (ms@[3].value matches Json::Number(n) && n.as_u64 == Some(id) && n.text@ == decimal(id as nat))
}

impl Outgoing {
    /// The JSON-RPC 2.0 request object for this request.
    pub fn request_json(self) -> (r: Json)
        ensures
            is_jsonrpc_request(r, self.id, self.method@, self.params),
    {
        let id = self.id;
        let mut ms: Vec<JsonMember> = Vec::new();
        ms.push(string_member("jsonrpc", "2.0"));
        ms.push(JsonMember { key: String::from_str("method"), value: Json::Str(self.method) });
        ms.push(JsonMember { key: String::from_str("params"), value: self.params });
        ms.push(JsonMember {
            key: String::from_str("id"),
            value: Json::Number(JsonNumber { as_u64: Some(id), text: decimal_string(id) }),
        });
        Json::Object(ms)
    }

    /// The line to write for this request: its JSON-RPC 2.0 request object
    /// as JSON text.
    pub fn request_line(self) -> (r: String)
        ensures
            exists|j: Json| #[trigger] is_jsonrpc_request(j, self.id, self.method@, self.params) && r@ == json_text(j),
    {
        let j = self.request_json();
        json_line(&j)
    }
}

/// `r` was issued on `before`, giving `after`: it has the next id and the
/// method `method`, and its answer is awaited as `kind` when that is given.
pub open spec fn issued(before: RpcState, after: RpcState, r: Outgoing, method: Seq<char>, kind: Option<RequestKind>) -> bool {
    &&& after.wf()
    &&& r.id == before.last_id() + 1
    &&& after.last_id() == r.id
    &&& r.method@ == method
    &&& after.pending() == match kind {
        Some(k) => before.pending().insert(r.id, k),
        None => before.pending(),
    }
}

/// An object without members.
fn empty_object() -> (r: Json)
    ensures
        is_empty_object(r),
{
    Json::Object(Vec::new())
}

/// The member `"key": "value"`.
fn string_member(key: &str, value: &str) -> (r: JsonMember)
    ensures
        is_string_member(r, key@, value@),
{
    JsonMember { key: String::from_str(key), value: Json::Str(String::from_str(value)) }
}

/// The member `"key": value` for a boolean.
fn bool_member(key: &str, value: bool) -> (r: JsonMember)
    ensures
        is_bool_member(r, key@, value),
{
    JsonMember { key: String::from_str(key), value: Json::Bool(value) }
}

/// An object with one string member.
fn object_with_string(key: &str, value: &str) -> (r: Json)
    ensures
        r matches Json::Object(ms) && ms@.len() == 1 && is_string_member(ms@[0], key@, value@),
{
    let mut ms: Vec<JsonMember> = Vec::new();
    ms.push(string_member(key, value));
    Json::Object(ms)
}

impl RpcState {
    /// Sends a user message; `steer` marks one sent while the agent is busy.
    pub fn prompt(&mut self, message: &str, steer: bool) -> (r: Outgoing)
        requires
            old(self).wf(),
            old(self).last_id() < u64::MAX,
        ensures
            issued(*old(self), *final(self), r, "prompt"@, None),
            r.params matches Json::Object(ms) && ms@.len() == 2
                && is_string_member(ms@[0], "message"@, message@)
                && is_bool_member(ms@[1], "steer"@, steer),
    {
        let mut ms: Vec<JsonMember> = Vec::new();
        ms.push(string_member("message", message));
        ms.push(bool_member("steer", steer));
        self.issue("prompt", Json::Object(ms), None)
    }

    /// Asks the agent to abort its turn.
    pub fn abort(&mut self) -> (r: Outgoing)
        requires
            old(self).wf(),
            old(self).last_id() < u64::MAX,
        ensures
            issued(*old(self), *final(self), r, "abort"@, None),
            is_empty_object(r.params),
    {
        self.issue("abort", empty_object(), None)
    }

    /// Issues a tracked request that takes no parameters.
    fn plain_request(&mut self, method: &str, kind: RequestKind) -> (r: Outgoing)
        requires
            old(self).wf(),
            old(self).last_id() < u64::MAX,
        ensures
            issued(*old(self), *final(self), r, method@, Some(kind)),
            is_empty_object(r.params),
    {
        self.issue(method, empty_object(), Some(kind))
    }

    /// Asks for the agent's state (model and working directory).
    pub fn get_state(&mut self) -> (r: Outgoing)
        requires
            old(self).wf(),
            old(self).last_id() < u64::MAX,
        ensures
            issued(*old(self), *final(self), r, "getState"@, Some(RequestKind::GetState)),
            is_empty_object(r.params),
    {
        self.plain_request("getState", RequestKind::GetState)
    }

    /// Asks for the models the agent can use.
    pub fn list_models(&mut self) -> (r: Outgoing)
        requires
            old(self).wf(),
            old(self).last_id() < u64::MAX,
        ensures
            issued(*old(self), *final(self), r, "listModels"@, Some(RequestKind::ListModels)),
            is_empty_object(r.params),
    {
        self.plain_request("listModels", RequestKind::ListModels)
    }

    /// Asks for the configured providers.
    pub fn list_providers(&mut self) -> (r: Outgoing)
        requires
            old(self).wf(),
            old(self).last_id() < u64::MAX,
        ensures
            issued(*old(self), *final(self), r, "listProviders"@, Some(RequestKind::ListProviders)),
            is_empty_object(r.params),
    {
        self.plain_request("listProviders", RequestKind::ListProviders)
    }

    /// Asks for the saved sessions.
    pub fn list_sessions(&mut self) -> (r: Outgoing)
        requires
            old(self).wf(),
            old(self).last_id() < u64::MAX,
        ensures
            issued(*old(self), *final(self), r, "listSessions"@, Some(RequestKind::ListSessions)),
            is_empty_object(r.params),
    {
        self.plain_request("listSessions", RequestKind::ListSessions)
    }

    /// Switches the agent to `model`.
    pub fn set_model(&mut self, model: &str) -> (r: Outgoing)
        requires
            old(self).wf(),
            old(self).last_id() < u64::MAX,
        ensures
            issued(*old(self), *final(self), r, "setModel"@, Some(RequestKind::SetModel)),
            r.params matches Json::Object(ms) && ms@.len() == 1 && is_string_member(ms@[0], "model"@, model@),
    {
        self.issue("setModel", object_with_string("model", model), Some(RequestKind::SetModel))
    }

    /// Resumes the saved session at `path`.
    pub fn resume_session(&mut self, path: &str) -> (r: Outgoing)
        requires
            old(self).wf(),
            old(self).last_id() < u64::MAX,
        ensures
            issued(*old(self), *final(self), r, "resumeSession"@, Some(RequestKind::ResumeSession)),
            r.params matches Json::Object(ms) && ms@.len() == 1 && is_string_member(ms@[0], "path"@, path@),
    {
        self.issue("resumeSession", object_with_string("path", path), Some(RequestKind::ResumeSession))
    }

    /// Asks for the session statistics.
    pub fn get_session_stats(&mut self) -> (r: Outgoing)
        requires
            old(self).wf(),
            old(self).last_id() < u64::MAX,
        ensures
            issued(*old(self), *final(self), r, "getSessionStats"@, Some(RequestKind::GetSessionStats)),
            is_empty_object(r.params),
    {
        self.plain_request("getSessionStats", RequestKind::GetSessionStats)
    }

    /// Asks the agent to reload its extensions.
    pub fn reload_extensions(&mut self) -> (r: Outgoing)
        requires
            old(self).wf(),
            old(self).last_id() < u64::MAX,
        ensures
            issued(*old(self), *final(self), r, "reloadExtensions"@, Some(RequestKind::ReloadExtensions)),
            is_empty_object(r.params),
    {
        self.plain_request("reloadExtensions", RequestKind::ReloadExtensions)
    }

    /// Asks for the installed extensions.
    pub fn list_extensions(&mut self) -> (r: Outgoing)
        requires
            old(self).wf(),
            old(self).last_id() < u64::MAX,
        ensures
            issued(*old(self), *final(self), r, "listExtensions"@, Some(RequestKind::ListExtensions)),
            is_empty_object(r.params),
    {
        self.plain_request("listExtensions", RequestKind::ListExtensions)
    }

    /// Asks the agent to compact its context.
    pub fn compact(&mut self) -> (r: Outgoing)
        requires
            old(self).wf(),
            old(self).last_id() < u64::MAX,
        ensures
            issued(*old(self), *final(self), r, "compact"@, Some(RequestKind::Compact)),
            is_empty_object(r.params),
    {
        self.plain_request("compact", RequestKind::Compact)
    }

    /// Asks the agent to clear the conversation.
    pub fn clear(&mut self) -> (r: Outgoing)
        requires
            old(self).wf(),
            old(self).last_id() < u64::MAX,
        ensures
            issued(*old(self), *final(self), r, "clear"@, Some(RequestKind::Clear)),
            is_empty_object(r.params),
    {
        self.plain_request("clear", RequestKind::Clear)
    }

    /// Asks the agent to start a new session.
    pub fn new_session(&mut self) -> (r: Outgoing)
        requires
            old(self).wf(),
            old(self).last_id() < u64::MAX,
        ensures
            issued(*old(self), *final(self), r, "newSession"@, Some(RequestKind::NewSession)),
            is_empty_object(r.params),
    {
        self.plain_request("newSession", RequestKind::NewSession)
    }

    /// Answers a tool-approval prompt, with an optional message for the agent.
    pub fn approval_response(&mut self, approved: bool, message: Option<String>) -> (r: Outgoing)
        requires
            old(self).wf(),
            old(self).last_id() < u64::MAX,
        ensures
            issued(*old(self), *final(self), r, "approvalResponse"@, None),
            r.params matches Json::Object(ms) && ms@.len() >= 1 && is_bool_member(ms@[0], "approved"@, approved)
                && match message {
                    Some(m) => ms@.len() == 2 && ms@[1].key@ == "message"@ && ms@[1].value == Json::Str(m),
                    None => ms@.len() == 1,
                },
    {
        let mut ms: Vec<JsonMember> = Vec::new();
        ms.push(bool_member("approved", approved));
        match message {
            Some(m) => {
                ms.push(JsonMember { key: String::from_str("message"), value: Json::Str(m) });
            },
            None => {},
        }
        self.issue("approvalResponse", Json::Object(ms), None)
    }
}

} // verus!

verus! {

/// A request id is never reused: the id handed out next is not awaited yet.
/// So an answer to it is reported once, as the kind it was issued with, and
/// afterwards the awaited requests are as they were before it was issued.
pub proof fn law_each_request_answered_once(s: RpcState, kind: RequestKind)
    requires
        s.wf(),
        s.last_id() < u64::MAX,
    ensures
        ({
            let id = (s.last_id() + 1) as u64;
            let p = s.pending().insert(id, kind);
            &&& !s.pending().contains_key(id)
            &&& p.contains_key(id)
            &&& p[id] == kind
            &&& p.remove(id) == s.pending()
            &&& !p.remove(id).contains_key(id)
        }),
{
    let id = (s.last_id() + 1) as u64;
    let p = s.pending().insert(id, kind);
    assert(p.remove(id) =~= s.pending());
}

} // verus!
