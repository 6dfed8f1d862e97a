use rho_ui::actions::{answer_approval, frame_is_due, startup, toggle_block, usage_footer, working_line, MenuButton};
use rho_ui::chat::model::{ApprovalResolution, ChatBlock, ToolStatus};
use rho_ui::chat::store::ChatStore;
use rho_ui::controller::{AgentCall, AppState, Effect, Modal, Usage};
use rho_ui::entries::{
    filter_models, model_row_label, provider_row_label, sort_models, sort_sessions_newest_first,
    ModelChoice, ModelEntry, ProviderEntry, SessionEntry,
};
use rho_ui::json::{Json, JsonMember, JsonNumber};
use rho_ui::protocol::{RequestKind, RhoEvent};
use rho_ui::render::{render_block, Template};

fn choice(id: &str, provider: &str) -> ModelChoice {
    ModelChoice { id: id.to_string(), provider: provider.to_string() }
}

fn num(n: u64) -> Json {
    Json::Number(JsonNumber { as_u64: Some(n), text: n.to_string() })
}

fn obj(members: Vec<(&str, Json)>) -> Json {
    Json::Object(
        members
            .into_iter()
            .map(|(k, v)| JsonMember { key: k.to_string(), value: v })
            .collect(),
    )
}

fn s(t: &str) -> Json {
    Json::Str(t.to_string())
}

#[test]
fn model_row_marks_current_model() {
    let e = ModelEntry { id: "m1".into(), provider: "acme".into(), is_current: true };
    assert_eq!(model_row_label(&e), "\u{2713} acme \u{00b7} m1");
    let e = ModelEntry { id: "m1".into(), provider: "acme".into(), is_current: false };
    assert_eq!(model_row_label(&e), "acme \u{00b7} m1");
}

#[test]
fn provider_row_shows_flags() {
    let e = ProviderEntry { name: "acme".into(), reachable: true, active: true, is_external: true };
    assert_eq!(provider_row_label(&e), "acme \u{2713} [active, external]");
    let e = ProviderEntry { name: "local".into(), reachable: false, active: false, is_external: false };
    assert_eq!(provider_row_label(&e), "local \u{2717}");
}

#[test]
fn models_sort_by_provider_then_id() {
    let sorted = sort_models(vec![choice("b", "z"), choice("c", "a"), choice("a", "z"), choice("a", "a")]);
    let got: Vec<(String, String)> = sorted.into_iter().map(|m| (m.provider, m.id)).collect();
    assert_eq!(
        got,
        vec![
            ("a".to_string(), "a".to_string()),
            ("a".to_string(), "c".to_string()),
            ("z".to_string(), "a".to_string()),
            ("z".to_string(), "b".to_string()),
        ]
    );
}

#[test]
fn sessions_sort_newest_first_and_stably() {
    let e = |p: &str, t: u64| SessionEntry { path: p.to_string(), mtime_secs: t, entry_count: 0 };
    let sorted = sort_sessions_newest_first(vec![e("old", 1), e("new", 9), e("mid1", 5), e("mid2", 5)]);
    let got: Vec<String> = sorted.into_iter().map(|x| x.path).collect();
    assert_eq!(got, vec!["new", "mid1", "mid2", "old"]);
}

#[test]
fn model_filter_is_case_insensitive() {
    let models = vec![choice("Falcon-Large", "Skyward"), choice("otter-7b", "RiverLabs")];
    let shown = filter_models(&models, "FALCON");
    assert_eq!(shown.len(), 1);
    assert_eq!(shown[0].id, "Falcon-Large");
    let shown = filter_models(&models, "riverlabs");
    assert_eq!(shown.len(), 1);
    assert_eq!(shown[0].id, "otter-7b");
    assert_eq!(filter_models(&models, "").len(), 2);
    assert_eq!(filter_models(&models, "heron").len(), 0);
}

#[test]
fn render_tool_call_and_approval() {
    let b = ChatBlock::ToolCall {
        name: "read_file".into(),
        args: "{}".into(),
        status: ToolStatus::Pending,
        output: None,
        expanded: false,
    };
    let r = render_block(&b);
    assert_eq!(r.template, Template::ToolRun);
    assert_eq!(r.head.as_deref(), Some("read_file {} \u{27f3} running"));
    assert!(r.output.is_none());
    assert!(r.toggle.is_none());

    let a = ChatBlock::Approval {
        tool: "run".into(),
        arguments: "ls".into(),
        risk: "low".into(),
        resolution: ApprovalResolution::Pending,
    };
    let r = render_block(&a);
    assert_eq!(r.template, Template::Approval);
    assert_eq!(r.head.as_deref(), Some("run ls (low)"));
    assert!(r.show_actions);
    assert!(r.resolved.is_none());

    let a = ChatBlock::Approval {
        tool: "run".into(),
        arguments: "ls".into(),
        risk: "low".into(),
        resolution: ApprovalResolution::Redirected("use cat".into()),
    };
    let r = render_block(&a);
    assert!(!r.show_actions);
    assert_eq!(r.resolved.as_deref(), Some("\u{21aa} redirected: use cat"));
}

#[test]
fn render_long_response_is_capped_until_expanded() {
    let long: String = "x".repeat(4005);
    let r = render_block(&ChatBlock::Response { text: long.clone(), expanded: false });
    assert_eq!(r.body.unwrap(), format!("{}\n\u{2026} (5 more chars)", "x".repeat(4000)));
    assert_eq!(r.toggle.as_deref(), Some("Expand"));
    let r = render_block(&ChatBlock::Response { text: long.clone(), expanded: true });
    assert_eq!(r.body.unwrap(), long);
    assert_eq!(r.toggle.as_deref(), Some("Collapse"));
    let r = render_block(&ChatBlock::Response { text: "short".into(), expanded: false });
    assert!(r.toggle.is_none());
}

#[test]
fn render_reasoning_heads() {
    let r = render_block(&ChatBlock::Reasoning { text: "t".into(), elapsed_secs: "1.0s".into() });
    assert_eq!(r.template, Template::Thought);
    assert_eq!(r.head.as_deref(), Some("? thought \u{00b7} 1.0s"));
    let r = render_block(&ChatBlock::ReasoningStreaming { text: "t".into() });
    assert_eq!(r.head.as_deref(), Some("? thinking"));
}

#[test]
fn working_line_text() {
    assert_eq!(working_line(0, "0.0", "", 0), "\u{280b} Working  0.0s  thinking");
    assert_eq!(working_line(1234, "1.2", "tool", 2), "\u{2834} Working  1.2s  tool  \u{2197} 2 steered");
}

#[test]
fn usage_footer_text() {
    let u = Usage { input: 1500, output: 20, cached: 0, ctx_used: 0, ctx_window: 0, util: 0 };
    assert_eq!(usage_footer(&u, "0.004"), "\u{2191}1.5k    \u{2193}0.0k    R0    $0.004");
    let u = Usage { input: 0, output: 0, cached: 0, ctx_used: 8000, ctx_window: 200_000, util: 4 };
    assert_eq!(
        usage_footer(&u, "0.000"),
        "\u{2191}0    \u{2193}0    R0    $0.000    ctx 8.0k/200.0k (4%)"
    );
}

#[test]
fn ready_event_connects_and_asks_for_state() {
    let mut app = AppState::new();
    let mut store = ChatStore::new();
    let fx = app.handle_rho_event(&mut store, RhoEvent::Ready);
    assert!(matches!(&store.snapshot()[0], ChatBlock::Info(t) if t == "\u{2713} Connected to rho"));
    assert!(matches!(fx[0], Effect::TailAndRedraw));
    assert!(matches!(fx[1], Effect::Call(AgentCall::GetState)));
    assert!(matches!(fx[2], Effect::Call(AgentCall::ListModels)));
    assert!(matches!(fx[3], Effect::Call(AgentCall::GetSessionStats)));
}

#[test]
fn agent_turn_streams_and_ends() {
    let mut app = AppState::new();
    let mut store = ChatStore::new();
    let fx = app.handle_rho_event(&mut store, RhoEvent::AgentStart);
    assert!(app.busy);
    assert!(matches!(fx[0], Effect::StartWorking));
    app.handle_rho_event(&mut store, RhoEvent::MessageDelta { delta: "hel".into() });
    app.handle_rho_event(&mut store, RhoEvent::MessageDelta { delta: "lo".into() });
    assert!(app.stream_dirty);
    let fx = app.handle_rho_event(
        &mut store,
        RhoEvent::AgentEnd { reply: "hello".into(), duration_ms: 1500 },
    );
    assert!(!app.busy);
    assert_eq!(store.len(), 1);
    assert!(matches!(&store.snapshot()[0], ChatBlock::Response { text, .. } if text == "hello"));
    assert!(matches!(fx[0], Effect::StopWorking));
}

#[test]
fn usage_event_accumulates_tokens() {
    let mut app = AppState::new();
    let mut store = ChatStore::new();
    let ev = |n: u64| RhoEvent::Usage {
        input_tokens: n,
        output_tokens: 2 * n,
        cached_tokens: 0,
        cost: None,
        context_used: 10,
        context_window: 100,
        utilization: 10,
    };
    assert!(app.accepts(&ev(5)));
    app.handle_rho_event(&mut store, ev(5));
    app.handle_rho_event(&mut store, ev(7));
    assert_eq!(app.usage.input, 12);
    assert_eq!(app.usage.output, 24);
    assert_eq!(app.usage.ctx_window, 100);
    app.usage.input = u64::MAX;
    assert!(!app.accepts(&ev(1)));
}

#[test]
fn request_error_is_reported() {
    let mut app = AppState::new();
    let mut store = ChatStore::new();
    app.handle_rho_event(
        &mut store,
        RhoEvent::RequestError { kind: RequestKind::SetModel, error: "nope".into() },
    );
    assert!(matches!(&store.snapshot()[0], ChatBlock::Info(t) if t == "\u{26a0} SetModel failed: nope"));
}

#[test]
fn models_response_fills_and_sorts_picker() {
    let mut app = AppState::new();
    let mut store = ChatStore::new();
    let result = obj(vec![(
        "models",
        Json::Array(vec![
            obj(vec![("id", s("b")), ("provider", s("p"))]),
            obj(vec![("id", s("a")), ("provider", s("p"))]),
        ]),
    )]);
    app.handle_response(&mut store, RequestKind::ListModels, result);
    let ids: Vec<&str> = app.models.iter().map(|m| m.id.as_str()).collect();
    assert_eq!(ids, vec!["a", "b"]);
    let shown: Vec<&str> = app.filtered_models.iter().map(|m| m.id.as_str()).collect();
    assert_eq!(shown, vec!["a", "b"]);
}

#[test]
fn stats_response_opens_requested_modal() {
    let mut app = AppState::new();
    let mut store = ChatStore::new();
    let (fx, stop) = app.press(&mut store, MenuButton::Stats, true);
    assert!(stop);
    assert!(app.stats_requested);
    assert!(matches!(fx[0], Effect::Call(AgentCall::GetSessionStats)));
    let fx = app.handle_response(&mut store, RequestKind::GetSessionStats, obj(vec![("contextWindow", num(10))]));
    assert!(fx.iter().any(|e| matches!(e, Effect::ShowStats { stats: true, .. })));
    assert!(!app.stats_requested);
}

#[test]
fn buttons_without_agent_report_not_connected() {
    let mut app = AppState::new();
    let mut store = ChatStore::new();
    let (fx, stop) = app.press(&mut store, MenuButton::Stats, false);
    assert!(stop);
    assert!(!app.stats_requested);
    assert!(matches!(&store.snapshot()[0], ChatBlock::Info(t) if t == "not connected."));
    assert!(matches!(fx[0], Effect::TailAndRedraw));
    let (fx, _) = app.press(&mut store, MenuButton::Help, false);
    assert!(matches!(fx[0], Effect::OpenModal(Modal::Help)));
}

#[test]
fn submitting_while_busy_steers() {
    let mut app = AppState::new();
    let mut store = ChatStore::new();
    let fx = app.submit_input(&mut store, "first".into(), true);
    assert!(matches!(&store.snapshot()[0], ChatBlock::User(t) if t == "first"));
    assert!(fx.iter().any(|e| matches!(e, Effect::Call(AgentCall::Prompt { steer: false, .. }))));
    app.busy = true;
    let fx = app.submit_input(&mut store, "again".into(), true);
    assert!(matches!(&store.snapshot()[1], ChatBlock::Steer(t) if t == "again"));
    assert!(fx.iter().any(|e| matches!(e, Effect::Call(AgentCall::Prompt { steer: true, .. }))));
    assert_eq!(app.steer_count, 1);
}

#[test]
fn answering_approval_records_resolution() {
    let mut store = ChatStore::new();
    store.push_approval("run".into(), "ls".into(), "low".into());
    let fx = answer_approval(&mut store, 0, false, Some("try cat".into()));
    assert!(matches!(
        &store.snapshot()[0],
        ChatBlock::Approval { resolution: ApprovalResolution::Redirected(m), .. } if m == "try cat"
    ));
    assert!(matches!(
        &fx[0],
        Effect::Call(AgentCall::ApprovalResponse { approved: false, message: Some(m) }) if m == "try cat"
    ));
    let mut store = ChatStore::new();
    store.push_approval("run".into(), "ls".into(), "low".into());
    answer_approval(&mut store, 0, false, Some(String::new()));
    assert!(matches!(
        &store.snapshot()[0],
        ChatBlock::Approval { resolution: ApprovalResolution::Denied, .. }
    ));
}

#[test]
fn toggling_a_response_twice_restores_it() {
    let mut store = ChatStore::new();
    store.push(ChatBlock::Response { text: "r".into(), expanded: false });
    toggle_block(&mut store, 0);
    assert!(matches!(&store.snapshot()[0], ChatBlock::Response { expanded: true, .. }));
    toggle_block(&mut store, 0);
    assert!(matches!(&store.snapshot()[0], ChatBlock::Response { expanded: false, .. }));
}

#[test]
fn startup_announces_and_spawns() {
    let mut store = ChatStore::new();
    let fx = startup(&mut store);
    assert!(matches!(&store.snapshot()[0], ChatBlock::Info(t) if t == "Starting rho\u{2026}"));
    assert!(matches!(fx[1], Effect::SpawnAgent { restart: false }));
}

#[test]
fn idle_state_ends_busy_turn() {
    let mut app = AppState::new();
    let mut store = ChatStore::new();
    app.handle_rho_event(&mut store, RhoEvent::AgentStart);
    app.busy = true;
    app.steer_count = 3;
    let fx = app.handle_rho_event(&mut store, RhoEvent::StateChange { state: "idle".into() });
    assert!(!app.busy);
    assert_eq!(app.steer_count, 0);
    assert_eq!(app.working_state, "idle");
    assert!(matches!(fx[0], Effect::TickWorking));
    assert!(matches!(fx[1], Effect::StopWorking));
    let fx = app.handle_rho_event(&mut store, RhoEvent::StateChange { state: "tool".into() });
    assert_eq!(fx.len(), 1);
}

#[test]
fn closed_process_stops_and_drops_agent() {
    let mut app = AppState::new();
    let mut store = ChatStore::new();
    app.handle_rho_event(&mut store, RhoEvent::AgentStart);
    let fx = app.handle_rho_event(&mut store, RhoEvent::Closed);
    assert!(!app.busy);
    assert!(matches!(&store.snapshot()[0], ChatBlock::Info(t) if t == "rho process exited."));
    assert!(matches!(fx[1], Effect::DropAgent));
    assert!(matches!(fx[2], Effect::StopWorking));
}

#[test]
fn agent_error_is_shown_and_stops() {
    let mut app = AppState::new();
    let mut store = ChatStore::new();
    app.handle_rho_event(&mut store, RhoEvent::AgentStart);
    app.handle_rho_event(&mut store, RhoEvent::AgentError { error: "boom".into() });
    assert!(!app.busy);
    assert!(matches!(&store.snapshot()[0], ChatBlock::Info(t) if t == "\u{26a0} boom"));
}

#[test]
fn footer_counts_follow_double_rounding() {
    let u = Usage { input: 1150, output: 250, cached: 1050, ctx_used: 0, ctx_window: 0, util: 0 };
    assert_eq!(usage_footer(&u, "0.000"), "\u{2191}1.1k    \u{2193}0.2k    R1.1k    $0.000");
    for n in 1..50_000u64 {
        let u = Usage { input: n, output: 0, cached: 0, ctx_used: 0, ctx_window: 0, util: 0 };
        let expected = format!("\u{2191}{:.1}k    \u{2193}0    R0    $0.000", n as f64 / 1000.0);
        assert_eq!(usage_footer(&u, "0.000"), expected, "n = {}", n);
    }
}

#[test]
fn frames_are_due_every_80_ms_while_busy() {
    assert!(frame_is_due(true, None));
    assert!(frame_is_due(true, Some(80)));
    assert!(!frame_is_due(true, Some(79)));
    assert!(!frame_is_due(false, None));
    assert!(!frame_is_due(false, Some(500)));
}
