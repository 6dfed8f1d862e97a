use vstd::prelude::*;
use crate::json::{Json, JsonNumber, json_get, opt_get, opt_ref, field_str, field_u64, field_bool, field_number, jstr, ju64, jbool, jnumber};
use crate::text::same_text;

verus! {

/// The requests whose responses are tracked and reported back.
#[derive(Clone, Copy, Debug, PartialEq, Eq, Structural)]
pub enum RequestKind {
    GetState,
    GetSessionStats,
    ListModels,
    ListProviders,
    ListSessions,
    SetModel,
    ResumeSession,
    ReloadExtensions,
    ListExtensions,
    Compact,
    Clear,
    NewSession,
}

/// One message from the agent, decoded.
#[derive(Debug)]
pub enum RhoEvent {
    Ready,
    AgentStart,
    AgentEnd { reply: String, duration_ms: u64 },
    AgentError { error: String },
    MessageDelta { delta: String },
    ReasoningDelta { delta: String },
    StateChange { state: String },
    ToolCall { name: String, arguments: String },
    ToolResult { name: String, is_error: bool, output: String },
    ToolDenied { name: String },
    ApprovalRequest { tool: String, arguments: String, risk: String },
    /// Token and context usage; `cost` is the number the agent sent, if any.
    Usage {
        input_tokens: u64,
        output_tokens: u64,
        cached_tokens: u64,
        cost: Option<JsonNumber>,
        context_used: u64,
        context_window: u64,
        utilization: u8,
    },
    Response { kind: RequestKind, result: Json },
    RequestError { kind: RequestKind, error: String },
    Closed,
}

/// The abstract value of a [`RhoEvent`]: strings taken by their characters.
pub enum EventView {
    Ready,
    AgentStart,
    AgentEnd { reply: Seq<char>, duration_ms: u64 },
    AgentError { error: Seq<char> },
    MessageDelta { delta: Seq<char> },
    ReasoningDelta { delta: Seq<char> },
    StateChange { state: Seq<char> },
    ToolCall { name: Seq<char>, arguments: Seq<char> },
    ToolResult { name: Seq<char>, is_error: bool, output: Seq<char> },
    ToolDenied { name: Seq<char> },
    ApprovalRequest { tool: Seq<char>, arguments: Seq<char>, risk: Seq<char> },
    Usage {
        input_tokens: u64,
        output_tokens: u64,
        cached_tokens: u64,
        cost: Option<JsonNumber>,
        context_used: u64,
        context_window: u64,
        utilization: u8,
    },
    Response { kind: RequestKind, result: Json },
    RequestError { kind: RequestKind, error: Seq<char> },
    Closed,
}

impl View for RhoEvent {
    type V = EventView;

    open spec fn view(&self) -> EventView {
        match self {
            RhoEvent::Ready => EventView::Ready,
            RhoEvent::AgentStart => EventView::AgentStart,
            RhoEvent::AgentEnd { reply, duration_ms } => EventView::AgentEnd { reply: reply@, duration_ms: *duration_ms },
            RhoEvent::AgentError { error } => EventView::AgentError { error: error@ },
            RhoEvent::MessageDelta { delta } => EventView::MessageDelta { delta: delta@ },
            RhoEvent::ReasoningDelta { delta } => EventView::ReasoningDelta { delta: delta@ },
            RhoEvent::StateChange { state } => EventView::StateChange { state: state@ },
            RhoEvent::ToolCall { name, arguments } => EventView::ToolCall { name: name@, arguments: arguments@ },
            RhoEvent::ToolResult { name, is_error, output } => EventView::ToolResult {
                name: name@,
                is_error: *is_error,
                output: output@,
            },
            RhoEvent::ToolDenied { name } => EventView::ToolDenied { name: name@ },
            RhoEvent::ApprovalRequest { tool, arguments, risk } => EventView::ApprovalRequest {
                tool: tool@,
                arguments: arguments@,
                risk: risk@,
            },
            RhoEvent::Usage { input_tokens, output_tokens, cached_tokens, cost, context_used, context_window, utilization } =>
                EventView::Usage {
                    input_tokens: *input_tokens,
                    output_tokens: *output_tokens,
                    cached_tokens: *cached_tokens,
                    cost: *cost,
                    context_used: *context_used,
                    context_window: *context_window,
                    utilization: *utilization,
                },
            RhoEvent::Response { kind, result } => EventView::Response { kind: *kind, result: *result },
            RhoEvent::RequestError { kind, error } => EventView::RequestError { kind: *kind, error: error@ },
            RhoEvent::Closed => EventView::Closed,
        }
    }
}

/// The abstract value of an optional event.
pub open spec fn event_opt_view(e: Option<RhoEvent>) -> Option<EventView> {
    match e {
        Some(ev) => Some(ev@),
        None => None,
    }
}

/// `n` clamped to 255.
pub open spec fn clamp_u8(n: u64) -> u8 {
    if n > 255 { 255 } else { n as u8 }
}

/// The event that the notification `method` with parameters `p` stands for,
/// or `None` for a method that is not known.
pub open spec fn method_event(method: Seq<char>, p: Option<Json>) -> Option<EventView> {
    if method == "ready"@ {
        Some(EventView::Ready)
    } else if method == "agent/start"@ {
        Some(EventView::AgentStart)
    } else if method == "agent/end"@ {
        Some(EventView::AgentEnd { reply: field_str(p, "reply"@), duration_ms: field_u64(p, "durationMs"@) })
    } else if method == "agent/error"@ {
        Some(EventView::AgentError { error: field_str(p, "error"@) })
    } else if method == "message/delta"@ {
        Some(EventView::MessageDelta { delta: field_str(p, "delta"@) })
    } else if method == "reasoning/delta"@ {
        Some(EventView::ReasoningDelta { delta: field_str(p, "delta"@) })
    } else if method == "state/change"@ {
        Some(EventView::StateChange { state: field_str(p, "state"@) })
    } else if method == "tool/call"@ {
        Some(EventView::ToolCall { name: field_str(p, "name"@), arguments: field_str(p, "arguments"@) })
    } else if method == "tool/result"@ {
        Some(EventView::ToolResult {
            name: field_str(p, "name"@),
            is_error: field_bool(p, "isError"@),
            output: field_str(p, "output"@),
        })
    } else if method == "tool/denied"@ {
        Some(EventView::ToolDenied { name: field_str(p, "name"@) })
    } else if method == "approval/request"@ {
        Some(EventView::ApprovalRequest {
            tool: field_str(p, "tool"@),
            arguments: field_str(p, "arguments"@),
            risk: field_str(p, "risk"@),
        })
    } else if method == "usage"@ {
        let u = opt_get(p, "usage"@);
        let c = opt_get(p, "context"@);
        Some(EventView::Usage {
            input_tokens: field_u64(u, "inputTokens"@),
            output_tokens: field_u64(u, "outputTokens"@),
            cached_tokens: field_u64(u, "cachedTokens"@),
            cost: field_number(u, "cost"@),
            context_used: field_u64(c, "estimatedUsed"@),
            context_window: field_u64(c, "contextWindow"@),
            utilization: clamp_u8(field_u64(c, "utilizationPercent"@)),
        })
    } else {
        None
    }
}

/// The event a notification stands for: `None` when it has no string
/// `method` or the method is not known.
pub open spec fn notification_event(v: Json) -> Option<EventView> {
    match json_get(v, "method"@) {
        Some(Json::Str(m)) => method_event(m@, json_get(v, "params"@)),
        _ => None,
    }
}

/// Parse a JSON-RPC notification (a message with a `method` field, no `id`).
/// Returns `None` for a missing or non-string `method`, or an unknown method.
pub fn parse_notification(v: &Json) -> (r: Option<RhoEvent>)
    ensures
        event_opt_view(r) == notification_event(*v),
{
    let method = match v.get("method") {
        Some(Json::Str(m)) => m.as_str(),
        _ => return None,
    };
    let p = v.get("params");
    if same_text(method, "ready") {
        Some(RhoEvent::Ready)
    } else if same_text(method, "agent/start") {
        Some(RhoEvent::AgentStart)
    } else if same_text(method, "agent/end") {
        Some(RhoEvent::AgentEnd { reply: jstr(p, "reply"), duration_ms: ju64(p, "durationMs") })
    } else if same_text(method, "agent/error") {
        Some(RhoEvent::AgentError { error: jstr(p, "error") })
    } else if same_text(method, "message/delta") {
        Some(RhoEvent::MessageDelta { delta: jstr(p, "delta") })
    } else if same_text(method, "reasoning/delta") {
        Some(RhoEvent::ReasoningDelta { delta: jstr(p, "delta") })
    } else if same_text(method, "state/change") {
        Some(RhoEvent::StateChange { state: jstr(p, "state") })
    } else if same_text(method, "tool/call") {
        Some(RhoEvent::ToolCall { name: jstr(p, "name"), arguments: jstr(p, "arguments") })
    } else if same_text(method, "tool/result") {
        Some(RhoEvent::ToolResult {
            name: jstr(p, "name"),
            is_error: jbool(p, "isError"),
            output: jstr(p, "output"),
        })
    } else if same_text(method, "tool/denied") {
        Some(RhoEvent::ToolDenied { name: jstr(p, "name") })
    } else if same_text(method, "approval/request") {
        Some(RhoEvent::ApprovalRequest {
            tool: jstr(p, "tool"),
            arguments: jstr(p, "arguments"),
            risk: jstr(p, "risk"),
        })
    } else if same_text(method, "usage") {
        let u = crate::json::get_opt(p, "usage");
        let c = crate::json::get_opt(p, "context");
        let percent = ju64(c, "utilizationPercent");
        let utilization: u8 = if percent > 255 { 255 } else { percent as u8 };
        Some(RhoEvent::Usage {
            input_tokens: ju64(u, "inputTokens"),
            output_tokens: ju64(u, "outputTokens"),
            cached_tokens: ju64(u, "cachedTokens"),
            cost: jnumber(u, "cost"),
            context_used: ju64(c, "estimatedUsed"),
            context_window: ju64(c, "contextWindow"),
            utilization,
        })
    } else {
        None
    }
}

/// The message of a JSON-RPC error response: `error.message` when it is a
/// string, else `request failed`.
pub open spec fn response_error_text(v: Json) -> Seq<char> {
    match opt_get(json_get(v, "error"@), "message"@) {
        Some(Json::Str(m)) => m@,
        _ => "request failed"@,
    }
}

/// Parse the `error.message` from a JSON-RPC error response object.
pub fn parse_response_error(v: &Json) -> (r: String)
    ensures
        r@ == response_error_text(*v),
{
    match crate::json::get_opt(v.get("error"), "message") {
        Some(Json::Str(m)) => m.clone(),
        _ => String::from_str("request failed"),
    }
}

} // verus!
