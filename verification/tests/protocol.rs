use rho_ui::json::{Json, JsonMember, JsonNumber};
use rho_ui::protocol::{parse_notification, parse_response_error, RequestKind, RhoEvent};
use rho_ui::rpc::RpcState;
use rho_ui::stats::format_session_stats;

fn to_json(v: &serde_json::Value) -> Json {
    match v {
        serde_json::Value::Null => Json::Null,
        serde_json::Value::Bool(b) => Json::Bool(*b),
        serde_json::Value::Number(n) => Json::Number(JsonNumber {
            as_u64: n.as_u64(),
            text: n.to_string(),
        }),
        serde_json::Value::String(s) => Json::Str(s.clone()),
        serde_json::Value::Array(items) => Json::Array(items.iter().map(to_json).collect()),
        serde_json::Value::Object(map) => Json::Object(
            map.iter()
                .map(|(k, v)| JsonMember { key: k.clone(), value: to_json(v) })
                .collect(),
        ),
    }
}

fn json_of(line: &str) -> Option<Json> {
    let v: serde_json::Value = serde_json::from_str(line).ok()?;
    Some(to_json(&v))
}

fn parse(line: &str) -> Option<RhoEvent> {
    RpcState::new().accept_line(line)
}

#[test]
fn ready() {
    assert!(matches!(
        parse(r#"{"method":"ready","params":{}}"#),
        Some(RhoEvent::Ready)
    ));
}

#[test]
fn agent_start() {
    assert!(matches!(
        parse(r#"{"method":"agent/start","params":{}}"#),
        Some(RhoEvent::AgentStart)
    ));
}

#[test]
fn agent_end() {
    match parse(r#"{"method":"agent/end","params":{"reply":"hi","durationMs":3200}}"#) {
        Some(RhoEvent::AgentEnd { reply, duration_ms }) => {
            assert_eq!(reply, "hi");
            assert_eq!(duration_ms, 3200);
        }
        other => panic!("expected AgentEnd, got {other:?}"),
    }
}

#[test]
fn agent_error() {
    match parse(r#"{"method":"agent/error","params":{"error":"boom"}}"#) {
        Some(RhoEvent::AgentError { error }) => assert_eq!(error, "boom"),
        other => panic!("expected AgentError, got {other:?}"),
    }
}

#[test]
fn message_delta() {
    match parse(r#"{"method":"message/delta","params":{"delta":"world"}}"#) {
        Some(RhoEvent::MessageDelta { delta }) => assert_eq!(delta, "world"),
        other => panic!("expected MessageDelta, got {other:?}"),
    }
}

#[test]
fn reasoning_delta() {
    match parse(r#"{"method":"reasoning/delta","params":{"delta":"..."}}"#) {
        Some(RhoEvent::ReasoningDelta { delta }) => assert_eq!(delta, "..."),
        other => panic!("expected ReasoningDelta, got {other:?}"),
    }
}

#[test]
fn state_change() {
    match parse(r#"{"method":"state/change","params":{"state":"idle"}}"#) {
        Some(RhoEvent::StateChange { state }) => assert_eq!(state, "idle"),
        other => panic!("expected StateChange, got {other:?}"),
    }
}

#[test]
fn tool_call() {
    match parse(r#"{"method":"tool/call","params":{"name":"read_file","arguments":"{}"}}"#) {
        Some(RhoEvent::ToolCall { name, arguments }) => {
            assert_eq!(name, "read_file");
            assert_eq!(arguments, "{}");
        }
        other => panic!("expected ToolCall, got {other:?}"),
    }
}

#[test]
fn tool_result_success() {
    match parse(r#"{"method":"tool/result","params":{"name":"r","isError":false,"output":"ok"}}"#) {
        Some(RhoEvent::ToolResult { name, is_error, output }) => {
            assert_eq!(name, "r");
            assert!(!is_error);
            assert_eq!(output, "ok");
        }
        other => panic!("expected ToolResult, got {other:?}"),
    }
}

#[test]
fn tool_result_error() {
    match parse(r#"{"method":"tool/result","params":{"name":"w","isError":true,"output":"bad"}}"#) {
        Some(RhoEvent::ToolResult { is_error, .. }) => assert!(is_error),
        other => panic!("expected ToolResult, got {other:?}"),
    }
}

#[test]
fn tool_denied() {
    match parse(r#"{"method":"tool/denied","params":{"name":"run"}}"#) {
        Some(RhoEvent::ToolDenied { name }) => assert_eq!(name, "run"),
        other => panic!("expected ToolDenied, got {other:?}"),
    }
}

#[test]
fn approval_request() {
    match parse(r#"{"method":"approval/request","params":{"tool":"t","arguments":"a","risk":"low"}}"#) {
        Some(RhoEvent::ApprovalRequest { tool, arguments, risk }) => {
            assert_eq!(tool, "t");
            assert_eq!(arguments, "a");
            assert_eq!(risk, "low");
        }
        other => panic!("expected ApprovalRequest, got {other:?}"),
    }
}

#[test]
fn usage() {
    let line = r#"{"method":"usage","params":{"usage":{"inputTokens":1000,"outputTokens":500,"cachedTokens":200,"cost":0.0042},"context":{"estimatedUsed":8000,"contextWindow":200000,"utilizationPercent":4}}}"#;
    match parse(line) {
        Some(RhoEvent::Usage {
            input_tokens,
            output_tokens,
            cached_tokens,
            cost,
            context_used,
            context_window,
            utilization,
        }) => {
            assert_eq!(input_tokens, 1000);
            assert_eq!(output_tokens, 500);
            assert_eq!(cached_tokens, 200);
            let cost: f64 = cost.map(|c| c.text.parse::<f64>().unwrap()).unwrap_or(0.0);
            assert!((cost - 0.0042).abs() < 1e-9);
            assert_eq!(context_used, 8000);
            assert_eq!(context_window, 200_000);
            assert_eq!(utilization, 4);
        }
        other => panic!("expected Usage, got {other:?}"),
    }
}

#[test]
fn usage_utilization_clamped() {
    let line = r#"{"method":"usage","params":{"usage":{"inputTokens":0,"outputTokens":0,"cachedTokens":0,"cost":0.0},"context":{"estimatedUsed":0,"contextWindow":0,"utilizationPercent":300}}}"#;
    match parse(line) {
        Some(RhoEvent::Usage { utilization, .. }) => assert_eq!(utilization, 255),
        other => panic!("expected Usage, got {other:?}"),
    }
}

#[test]
fn usage_without_blocks_reads_zeros() {
    match parse(r#"{"method":"usage","params":{}}"#) {
        Some(RhoEvent::Usage { input_tokens, cost, context_window, utilization, .. }) => {
            assert_eq!(input_tokens, 0);
            assert!(cost.is_none());
            assert_eq!(context_window, 0);
            assert_eq!(utilization, 0);
        }
        other => panic!("expected Usage, got {other:?}"),
    }
}

#[test]
fn missing_fields_read_as_defaults() {
    match parse(r#"{"method":"agent/end","params":{"reply":7}}"#) {
        Some(RhoEvent::AgentEnd { reply, duration_ms }) => {
            assert_eq!(reply, "");
            assert_eq!(duration_ms, 0);
        }
        other => panic!("expected AgentEnd, got {other:?}"),
    }
    match parse(r#"{"method":"tool/result"}"#) {
        Some(RhoEvent::ToolResult { name, is_error, output }) => {
            assert_eq!(name, "");
            assert!(!is_error);
            assert_eq!(output, "");
        }
        other => panic!("expected ToolResult, got {other:?}"),
    }
}

#[test]
fn unknown_method() {
    assert!(parse(r#"{"method":"unknown","params":{}}"#).is_none());
}

#[test]
fn invalid_json() {
    assert!(parse("not json").is_none());
}

#[test]
fn method_that_is_not_a_string() {
    assert!(parse(r#"{"method":3,"params":{}}"#).is_none());
}

#[test]
fn missing_method() {
    let v = json_of(r#"{"params":{}}"#).unwrap();
    assert!(parse_notification(&v).is_none());
}

#[test]
fn response_error_message() {
    let v = json_of(r#"{"error":{"message":"denied"}}"#).unwrap();
    assert_eq!(parse_response_error(&v), "denied");
}

#[test]
fn response_error_fallback() {
    let v = Json::Object(Vec::new());
    assert_eq!(parse_response_error(&v), "request failed");
}

#[test]
fn response_error_message_not_a_string() {
    let v = json_of(r#"{"error":{"message":5}}"#).unwrap();
    assert_eq!(parse_response_error(&v), "request failed");
}

#[test]
fn format_session_stats_renders_sections_and_values() {
    let result = json_of(
        r#"{
            "contextWindow": 200000,
            "estimatedUsed": 10000,
            "utilizationPercent": 5,
            "estimatedRemaining": 190000,
            "completionReserve": 8000,
            "messageCount": 3,
            "entryCount": 4,
            "pathEntryCount": 2,
            "compactedEntryCount": 1,
            "roleTokens": { "system": 1000, "user": 2000, "assistant": 3000, "tool": 4000 },
            "resolutionTokens": { "full": 10, "outlined": 20, "summarized": 30, "pinned": 40 },
            "apiUsage": {
                "totalInputTokens": 5000,
                "totalOutputTokens": 6000,
                "totalCachedTokens": 7000,
                "totalTokens": 18000,
                "requestCount": 2,
                "totalCost": 0.125
            }
        }"#,
    )
    .unwrap();
    let cost = format!("{:.4}", 0.125_f64);
    let formatted = format_session_stats(&result, &cost);
    assert!(formatted.contains("Context"));
    assert!(formatted.contains("window          200.0k"));
    assert!(formatted.contains("messages        3"));
    assert!(formatted.contains("cost            $0.1250"));
}

#[test]
fn format_session_stats_full_text() {
    let result = json_of(
        r#"{"contextWindow": 1500, "estimatedUsed": 999, "utilizationPercent": 66,
            "messageCount": 1, "roleTokens": {"user": 12345}}"#,
    )
    .unwrap();
    let formatted = format_session_stats(&result, "0.0000");
    let expected = "Context\n  window          1.5k\n  used            999 (66%)\n  remaining       0\n  completion rsv  0\n\nSession\n  messages        1\n  entries         0 (0 on path, 0 compacted)\n\nRole tokens\n  system          0\n  user            12.3k\n  assistant       0\n  tool            0\n\nResolution\n  full            0\n  outlined        0\n  summarized      0\n  pinned          0\n\nAPI usage\n  input           0\n  output          0\n  cached          0\n  total           0\n  requests        0\n  cost            $0.0000";
    assert_eq!(formatted, expected);
}

#[test]
fn requests_get_increasing_ids() {
    let mut rpc = RpcState::new();
    assert_eq!(rpc.last_request_id(), 0);
    let a = rpc.get_state();
    let b = rpc.list_models();
    assert_eq!(a.id, 1);
    assert_eq!(a.method, "getState");
    assert_eq!(b.id, 2);
    assert_eq!(b.method, "listModels");
    assert_eq!(rpc.last_request_id(), 2);
}

#[test]
fn answer_to_awaited_request_is_reported_once() {
    let mut rpc = RpcState::new();
    let out = rpc.list_sessions();
    let line = format!(r#"{{"id":{},"result":{{"sessions":[]}}}}"#, out.id);
    match rpc.accept(json_of(&line).unwrap()) {
        Some(RhoEvent::Response { kind, result }) => {
            assert_eq!(kind, RequestKind::ListSessions);
            assert!(result.get("sessions").is_some());
        }
        other => panic!("expected Response, got {other:?}"),
    }
    assert!(rpc.accept(json_of(&line).unwrap()).is_none());
}

#[test]
fn error_answer_becomes_request_error() {
    let mut rpc = RpcState::new();
    let out = rpc.set_model("m");
    let line = format!(r#"{{"id":{},"error":{{"message":"no such model"}}}}"#, out.id);
    match rpc.accept(json_of(&line).unwrap()) {
        Some(RhoEvent::RequestError { kind, error }) => {
            assert_eq!(kind, RequestKind::SetModel);
            assert_eq!(error, "no such model");
        }
        other => panic!("expected RequestError, got {other:?}"),
    }
}

#[test]
fn answer_to_untracked_request_is_dropped() {
    let mut rpc = RpcState::new();
    let out = rpc.prompt("hi", false);
    let line = format!(r#"{{"id":{},"result":{{}}}}"#, out.id);
    assert!(rpc.accept(json_of(&line).unwrap()).is_none());
}

#[test]
fn notification_passes_through_accept() {
    let mut rpc = RpcState::new();
    let v = json_of(r#"{"method":"agent/start","params":{}}"#).unwrap();
    assert!(matches!(rpc.accept(v), Some(RhoEvent::AgentStart)));
}

#[test]
fn format_session_stats_counts_follow_double_rounding() {
    let result = json_of(r#"{"contextWindow": 1150, "roleTokens": {"user": 2250}}"#).unwrap();
    let formatted = format_session_stats(&result, "0.0000");
    assert!(formatted.contains(&format!("window          {:.1}k", 1150_f64 / 1000.0)));
    assert!(formatted.contains("window          1.1k"));
    assert!(formatted.contains(&format!("user            {:.1}k", 2250_f64 / 1000.0)));
}

#[test]
fn parse_matches_notification_decoding() {
    let line = r#"{"method":"tool/call","params":{"name":"n","arguments":"a"}}"#;
    let direct = parse_notification(&json_of(line).unwrap());
    assert!(matches!(direct, Some(RhoEvent::ToolCall { .. })));
    assert!(matches!(parse(line), Some(RhoEvent::ToolCall { name, arguments }) if name == "n" && arguments == "a"));
}

#[test]
fn answer_line_is_reported_once() {
    let mut rpc = RpcState::new();
    let out = rpc.get_state();
    let line = format!(r#"{{"jsonrpc":"2.0","id":{},"result":{{"model":"m","cwd":"/w"}}}}"#, out.id);
    match rpc.accept_line(&line) {
        Some(RhoEvent::Response { kind, result }) => {
            assert_eq!(kind, RequestKind::GetState);
            assert!(matches!(result.get("model"), Some(Json::Str(m)) if m == "m"));
        }
        other => panic!("expected Response, got {other:?}"),
    }
    assert!(rpc.accept_line(&line).is_none());
    assert!(rpc.accept_line("{not json").is_none());
}

#[test]
fn request_line_is_a_jsonrpc_request() {
    let mut rpc = RpcState::new();
    rpc.get_state();
    let out = rpc.set_model("m-1");
    let line = out.request_line();
    let v: serde_json::Value = serde_json::from_str(&line).unwrap();
    assert_eq!(v["jsonrpc"], "2.0");
    assert_eq!(v["method"], "setModel");
    assert_eq!(v["id"], 2);
    assert_eq!(v["params"]["model"], "m-1");
    assert!(!line.contains('\n'));
}

#[test]
fn request_json_has_four_members() {
    let mut rpc = RpcState::new();
    let out = rpc.prompt("hi", true);
    match out.request_json() {
        Json::Object(ms) => {
            let keys: Vec<&str> = ms.iter().map(|m| m.key.as_str()).collect();
            assert_eq!(keys, vec!["jsonrpc", "method", "params", "id"]);
        }
        other => panic!("expected an object, got {other:?}"),
    }
}
