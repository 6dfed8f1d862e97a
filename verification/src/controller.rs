use vstd::prelude::*;
use crate::chat::model::{ApprovalResolution, BlockView, ChatBlock, ResolutionView, ToolStatus};
use crate::chat::store::{ChatStore, finalized_response, finalized_reasoning, finalized_tool_call, with_final_response, with_reasoning_delta, with_response_delta, with_resolution};
use crate::entries::{ModelChoice, ModelEntry, ModelEntryView, ModelView, ProviderEntry, ProviderView, SessionEntry, SessionView, filter_models, filtered_model_views, model_views, model_order, newest_first, session_views, sort_models, sort_sessions_newest_first};
use crate::formatting::{format_secs, secs_label};
use crate::json::{Json, JsonNumber, json_get, field_str, field_u64, field_bool, field_number, jstr, ju64, jbool, jnumber};
use crate::formatting::{recency_label, elapsed_secs, relative_time};
use crate::text::{decimal, push_decimal};
use crate::protocol::{EventView, RequestKind, RhoEvent, clamp_u8};
use crate::sorting::{stably_sorted, lemma_stably_sorted_nonempty};
use crate::entries::lemma_newest_first_preorder;

verus! {

/// Token counters and the latest context snapshot shown in the footer (the
/// running cost is kept by the caller).
#[derive(Clone, Copy, Debug, PartialEq, Eq, Structural)]
pub struct Usage {
    pub input: u64,
    pub output: u64,
    pub cached: u64,
    pub ctx_used: u64,
    pub ctx_window: u64,
    pub util: u8,
}

/// The text of the extensions modal: rendered lines, or the raw result when
/// it has no extension list.
#[derive(Debug)]
pub enum ExtensionsBody {
    Text(String),
    Raw(Json),
}

/// The abstract value of an [`ExtensionsBody`].
pub enum BodyView {
    Text(Seq<char>),
    Raw(Json),
}

impl View for ExtensionsBody {
    type V = BodyView;

    open spec fn view(&self) -> BodyView {
        match self {
            ExtensionsBody::Text(t) => BodyView::Text(t@),
            ExtensionsBody::Raw(j) => BodyView::Raw(*j),
        }
    }
}

/// A modal dialog of the window.
#[derive(Clone, Copy, Debug, PartialEq, Eq, Structural)]
pub enum Modal {
    Stats,
    Help,
    Model,
    Session,
    Provider,
    Extensions,
    Context,
    ResumeConfirm,
}

/// A call to make on the agent, when one is connected.
#[derive(Debug)]
pub enum AgentCall {
    GetState,
    ListModels,
    ListProviders,
    ListSessions,
    GetSessionStats,
    ReloadExtensions,
    ListExtensions,
    Compact,
    Clear,
    NewSession,
    Abort,
    SetModel(String),
    ResumeSession(String),
    Prompt { text: String, steer: bool },
    ApprovalResponse { approved: bool, message: Option<String> },
}

/// Something for the window or the agent connection to do, in order.
#[derive(Debug)]
pub enum Effect {
    /// Jump the scrollback to its newest block and redraw.
    TailAndRedraw,
    /// Redraw the window.
    Redraw,
    /// Start the working line: note the start time, show it, animate it.
    StartWorking,
    /// Stop the working line and hide it.
    StopWorking,
    /// Refresh the working line's text.
    TickWorking,
    /// Render the usage footer.
    UpdateUsage,
    /// Add this cost (if the agent sent one) to the running total.
    AddCost(Option<JsonNumber>),
    /// Set the running total cost to this value (0 when absent).
    SetCost(Option<JsonNumber>),
    /// Make this call on the agent, if one is connected.
    Call(AgentCall),
    /// Drop the agent connection.
    DropAgent,
    /// Spawn the agent; `restart` tells a restart from the first start.
    SpawnAgent { restart: bool },
    /// Show `footer_model` in the footer.
    ShowFooterModel,
    /// Show `footer_pwd` in the footer.
    ShowFooterPwd,
    /// Publish the picker rows for `filtered_models` and redraw.
    SyncModelList,
    OpenModal(Modal),
    CloseModal(Modal),
    /// Fill the statistics and/or context modal from `stats_result` and open it.
    ShowStats { stats: bool, context: bool },
    /// Empty the model filter input.
    ClearModelFilter,
    /// Empty the message input.
    ClearInput,
    /// Show the steering placeholder in the message input.
    SteerPlaceholder,
    /// Give the message input the key focus.
    FocusInput,
    /// Quit the application.
    Quit,
}

/// The state of the window that is not the scrollback or the agent
/// connection.
#[derive(Debug)]
pub struct AppState {
    pub busy: bool,
    pub usage: Usage,
    pub models: Vec<ModelChoice>,
    pub filtered_models: Vec<ModelChoice>,
    pub model_filter_text: String,
    pub current_model: Option<String>,
    pub resume_latest_requested: bool,
    pub stats_requested: bool,
    pub context_modal_requested: bool,
    pub pending_resume_path: Option<String>,
    pub working_state: String,
    pub stream_dirty: bool,
    pub steer_count: u32,
    pub footer_model: String,
    pub footer_pwd: String,
    pub providers: Vec<ProviderEntry>,
    pub sessions: Vec<SessionEntry>,
    pub resume_confirm_meta: String,
    pub resume_confirm_path: String,
    pub stats_result: Json,
    pub extensions_body: ExtensionsBody,
}

/// The abstract value of an [`AppState`].
pub struct AppView {
    pub busy: bool,
    pub usage: Usage,
    pub models: Seq<ModelView>,
    pub filtered_models: Seq<ModelView>,
    pub model_filter_text: Seq<char>,
    pub current_model: Option<Seq<char>>,
    pub resume_latest_requested: bool,
    pub stats_requested: bool,
    pub context_modal_requested: bool,
    pub pending_resume_path: Option<Seq<char>>,
    pub working_state: Seq<char>,
    pub stream_dirty: bool,
    pub steer_count: u32,
    pub footer_model: Seq<char>,
    pub footer_pwd: Seq<char>,
    pub providers: Seq<ProviderView>,
    pub sessions: Seq<SessionView>,
    pub resume_confirm_meta: Seq<char>,
    pub resume_confirm_path: Seq<char>,
    pub stats_result: Json,
    pub extensions_body: BodyView,
}

/// The characters of an optional string.
pub open spec fn opt_text(o: Option<String>) -> Option<Seq<char>> {
    match o {
        Some(s) => Some(s@),
        None => None,
    }
}

/// The abstract values of a list of providers.
pub open spec fn provider_views(v: Seq<ProviderEntry>) -> Seq<ProviderView> {
    v.map_values(|e: ProviderEntry| e@)
}

impl View for AppState {
    type V = AppView;

    open spec fn view(&self) -> AppView {
        AppView {
            busy: self.busy,
            usage: self.usage,
            models: model_views(self.models@),
            filtered_models: model_views(self.filtered_models@),
            model_filter_text: self.model_filter_text@,
            current_model: opt_text(self.current_model),
            resume_latest_requested: self.resume_latest_requested,
            stats_requested: self.stats_requested,
            context_modal_requested: self.context_modal_requested,
            pending_resume_path: opt_text(self.pending_resume_path),
            working_state: self.working_state@,
            stream_dirty: self.stream_dirty,
            steer_count: self.steer_count,
            footer_model: self.footer_model@,
            footer_pwd: self.footer_pwd@,
            providers: provider_views(self.providers@),
            sessions: session_views(self.sessions@),
            resume_confirm_meta: self.resume_confirm_meta@,
            resume_confirm_path: self.resume_confirm_path@,
            stats_result: self.stats_result,
            extensions_body: self.extensions_body@,
        }
    }
}

/// The state of a window that has just opened: idle, no usage, nothing
/// listed, nothing requested.
pub open spec fn initial_view() -> AppView {
    AppView {
        busy: false,
        usage: Usage { input: 0, output: 0, cached: 0, ctx_used: 0, ctx_window: 0, util: 0 },
        models: Seq::empty(),
        filtered_models: Seq::empty(),
        model_filter_text: Seq::empty(),
        current_model: None,
        resume_latest_requested: false,
        stats_requested: false,
        context_modal_requested: false,
        pending_resume_path: None,
        working_state: Seq::empty(),
        stream_dirty: false,
        steer_count: 0,
        footer_model: Seq::empty(),
        footer_pwd: Seq::empty(),
        providers: Seq::empty(),
        sessions: Seq::empty(),
        resume_confirm_meta: Seq::empty(),
        resume_confirm_path: Seq::empty(),
        stats_result: Json::Null,
        extensions_body: BodyView::Text(Seq::empty()),
    }
}

impl AppState {
    /// The state of a window that has just opened.
    pub fn new() -> (r: AppState)
        ensures
            r@ == initial_view(),
    {
        let r = AppState {
            busy: false,
            usage: Usage { input: 0, output: 0, cached: 0, ctx_used: 0, ctx_window: 0, util: 0 },
            models: Vec::new(),
            filtered_models: Vec::new(),
            model_filter_text: String::new(),
            current_model: None,
            resume_latest_requested: false,
            stats_requested: false,
            context_modal_requested: false,
            pending_resume_path: None,
            working_state: String::new(),
            stream_dirty: false,
            steer_count: 0,
            footer_model: String::new(),
            footer_pwd: String::new(),
            providers: Vec::new(),
            sessions: Vec::new(),
            resume_confirm_meta: String::new(),
            resume_confirm_path: String::new(),
            stats_result: Json::Null,
            extensions_body: ExtensionsBody::Text(String::new()),
        };
        assert(model_views(r.models@) =~= Seq::empty());
        assert(model_views(r.filtered_models@) =~= Seq::empty());
        assert(provider_views(r.providers@) =~= Seq::empty());
        assert(session_views(r.sessions@) =~= Seq::empty());
        r
    }
}

// ── The decisions, stated ───────────────────────────────────────────────────

/// The scrollback after an info line is pushed (finalizing any streaming
/// response first).
pub open spec fn pushed_info(s: Seq<BlockView>, text: Seq<char>) -> Seq<BlockView> {
    finalized_response(s).push(BlockView::Info(text))
}

/// The state once an agent turn has ended.
pub open spec fn stopped(av: AppView) -> AppView {
    AppView { busy: false, steer_count: 0, ..av }
}

/// The Debug name of a request kind.
pub open spec fn kind_name(kind: RequestKind) -> Seq<char> {
    match kind {
        RequestKind::GetState => "GetState"@,
        RequestKind::GetSessionStats => "GetSessionStats"@,
        RequestKind::ListModels => "ListModels"@,
        RequestKind::ListProviders => "ListProviders"@,
        RequestKind::ListSessions => "ListSessions"@,
        RequestKind::SetModel => "SetModel"@,
        RequestKind::ResumeSession => "ResumeSession"@,
        RequestKind::ReloadExtensions => "ReloadExtensions"@,
        RequestKind::ListExtensions => "ListExtensions"@,
        RequestKind::Compact => "Compact"@,
        RequestKind::Clear => "Clear"@,
        RequestKind::NewSession => "NewSession"@,
    }
}

/// The token counters can take this event without overflowing.
pub open spec fn event_fits(av: AppView, ev: EventView) -> bool {
    match ev {
        EventView::Usage { input_tokens, output_tokens, cached_tokens, .. } => {
            &&& av.usage.input + input_tokens <= u64::MAX
            &&& av.usage.output + output_tokens <= u64::MAX
            &&& av.usage.cached + cached_tokens <= u64::MAX
        },
        _ => true,
    }
}

/// One agent event takes the state `av` and scrollback `s` to `av2` and `s2`,
/// asking for the effects `fx`.
pub open spec fn event_step(
    av: AppView,
    s: Seq<BlockView>,
    ev: EventView,
    av2: AppView,
    s2: Seq<BlockView>,
    fx: Seq<Effect>,
) -> bool {
    match ev {
        EventView::Ready => {
            &&& av2 == av
            &&& s2 == pushed_info(s, "\u{2713} Connected to rho"@)
            &&& fx == seq![
                Effect::TailAndRedraw,
                Effect::Call(AgentCall::GetState),
                Effect::Call(AgentCall::ListModels),
                Effect::Call(AgentCall::GetSessionStats),
            ]
        },
        EventView::AgentStart => {
            &&& av2 == AppView { busy: true, working_state: Seq::empty(), ..av }
            &&& s2 == s
            &&& fx == seq![Effect::StartWorking]
        },
        EventView::MessageDelta { delta } => {
            &&& av2 == AppView { stream_dirty: true, ..av }
            &&& s2 == with_response_delta(s, delta)
            &&& fx == Seq::<Effect>::empty()
        },
        EventView::ReasoningDelta { delta } => {
            &&& av2 == AppView { stream_dirty: true, ..av }
            &&& s2 == with_reasoning_delta(finalized_response(s), delta)
            &&& fx == Seq::<Effect>::empty()
        },
        EventView::AgentEnd { reply, duration_ms } => {
            &&& av2 == stopped(av)
            &&& s2 == with_final_response(
                finalized_response(finalized_reasoning(s, secs_label(duration_ms as nat))),
                reply,
            )
            &&& fx == seq![Effect::StopWorking, Effect::Call(AgentCall::GetSessionStats), Effect::TailAndRedraw]
        },
        EventView::AgentError { error } => {
            &&& av2 == stopped(av)
            &&& s2 == pushed_info(s, "\u{26a0} "@ + error)
            &&& fx == seq![Effect::TailAndRedraw, Effect::StopWorking]
        },
        EventView::StateChange { state } => {
            let ends = state == "idle"@ && av.busy;
            let av1 = AppView { working_state: state, ..av };
            &&& av2 == (if ends { stopped(av1) } else { av1 })
            &&& s2 == s
            &&& fx == (if ends { seq![Effect::TickWorking, Effect::StopWorking] } else { seq![Effect::TickWorking] })
        },
        EventView::ToolCall { name, arguments } => {
            &&& av2 == av
            &&& s2 == finalized_response(s).push(BlockView::ToolCall {
                name: name,
                args: arguments,
                status: ToolStatus::Pending,
                output: None,
                expanded: false,
            })
            &&& fx == seq![Effect::TailAndRedraw]
        },
        EventView::ToolResult { name, is_error, output } => {
            &&& av2 == av
            &&& s2 == finalized_tool_call(
                s,
                name,
                if is_error { ToolStatus::Error } else { ToolStatus::Success },
                if output.len() == 0 { None } else { Some(output) },
            )
            &&& fx == seq![Effect::TailAndRedraw]
        },
        EventView::ToolDenied { name } => {
            &&& av2 == av
            &&& s2 == finalized_tool_call(s, name, ToolStatus::Denied, Some("denied by approval gate"@))
            &&& fx == seq![Effect::TailAndRedraw]
        },
        EventView::ApprovalRequest { tool, arguments, risk } => {
            &&& av2 == av
            &&& s2 == s.push(BlockView::Approval {
                tool: tool,
                arguments: arguments,
                risk: risk,
                resolution: ResolutionView::Pending,
            })
            &&& fx == seq![Effect::TailAndRedraw]
        },
        EventView::Usage { input_tokens, output_tokens, cached_tokens, cost, context_used, context_window, utilization } => {
            &&& av2 == AppView {
                usage: Usage {
                    input: (av.usage.input + input_tokens) as u64,
                    output: (av.usage.output + output_tokens) as u64,
                    cached: (av.usage.cached + cached_tokens) as u64,
                    ctx_used: context_used,
                    ctx_window: context_window,
                    util: utilization,
                },
                ..av
            }
            &&& s2 == s
            &&& fx == seq![Effect::AddCost(cost), Effect::UpdateUsage]
        },
        EventView::Response { kind, result } => response_step(av, s, kind, result, av2, s2, fx),
        EventView::RequestError { kind, error } => {
            &&& av2 == av
            &&& s2 == pushed_info(s, "\u{26a0} "@ + kind_name(kind) + " failed: "@ + error)
            &&& fx == seq![Effect::TailAndRedraw]
        },
        EventView::Closed => {
            &&& av2 == stopped(av)
            &&& s2 == pushed_info(s, "rho process exited."@)
            &&& fx == seq![Effect::TailAndRedraw, Effect::DropAgent, Effect::StopWorking]
        },
    }
}

/// The model a `listModels` entry describes, when it has a string `id`.
pub open spec fn model_of(e: Json) -> Option<ModelView> {
    match json_get(e, "id"@) {
        Some(Json::Str(id)) => Some(ModelView { id: id@, provider: field_str(Some(e), "provider"@) }),
        _ => None,
    }
}

/// The models of a `listModels` result, in the order given.
pub open spec fn listed_models(result: Json) -> Seq<ModelView> {
    match json_get(result, "models"@) {
        Some(Json::Array(arr)) => arr@.filter_map(|e: Json| model_of(e)),
        _ => Seq::empty(),
    }
}

/// The session a `listSessions` entry describes.
pub open spec fn session_of(e: Json) -> SessionView {
    SessionView {
        path: field_str(Some(e), "path"@),
        mtime_secs: field_u64(Some(e), "mtimeSecs"@),
        entry_count: field_u64(Some(e), "entryCount"@),
    }
}

/// The sessions of a `listSessions` result, in the order given.
pub open spec fn listed_sessions(result: Json) -> Seq<SessionView> {
    match json_get(result, "sessions"@) {
        Some(Json::Array(arr)) => arr@.map_values(|e: Json| session_of(e)),
        _ => Seq::empty(),
    }
}

/// The provider a `listProviders` entry describes.
pub open spec fn provider_of(e: Json) -> ProviderView {
    ProviderView {
        name: field_str(Some(e), "name"@),
        reachable: field_bool(Some(e), "reachable"@),
        active: field_bool(Some(e), "active"@),
        is_external: field_bool(Some(e), "isExternal"@),
    }
}

/// The providers of a `listProviders` result, in the order given.
pub open spec fn listed_providers(result: Json) -> Seq<ProviderView> {
    match json_get(result, "providers"@) {
        Some(Json::Array(arr)) => arr@.map_values(|e: Json| provider_of(e)),
        _ => Seq::empty(),
    }
}

/// The line of the extensions modal for one extension: its name, its status
/// when given, and its tool count when positive.
pub open spec fn extension_line(e: Json) -> Seq<char> {
    let name = field_str(Some(e), "name"@);
    let status = field_str(Some(e), "status"@);
    let tools = field_u64(Some(e), "toolCount"@);
    let base = if status.len() == 0 { "  "@ + name } else { "  "@ + name + " \u{2014} "@ + status };
    if tools > 0 { base + " ("@ + decimal(tools as nat) + " tools)"@ } else { base }
}

/// Lines joined with newlines.
pub open spec fn join_lines(lines: Seq<Seq<char>>) -> Seq<char>
    decreases lines.len(),
{
    if lines.len() == 0 {
        Seq::empty()
    } else if lines.len() == 1 {
        lines[0]
    } else {
        join_lines(lines.drop_last()) + "\n"@ + lines.last()
    }
}

/// The text of the extensions modal for a `listExtensions` result.
pub open spec fn extensions_view(result: Json) -> BodyView {
    match json_get(result, "extensions"@) {
        Some(Json::Array(arr)) => if arr@.len() == 0 {
            BodyView::Text("No extensions installed."@)
        } else {
            BodyView::Text(join_lines(arr@.map_values(|e: Json| extension_line(e))))
        },
        _ => BodyView::Raw(result),
    }
}

/// The line above the path in the resume confirmation.
pub open spec fn resume_meta(recency: Seq<char>, entry_count: u64) -> Seq<char> {
    recency + " \u{00b7} "@ + decimal(entry_count as nat) + " entries"@
}

/// The answer to a request of kind `kind` with `result` takes `av` and `s` to
/// `av2` and `s2`, asking for the effects `fx`.
pub open spec fn response_step(
    av: AppView,
    s: Seq<BlockView>,
    kind: RequestKind,
    result: Json,
    av2: AppView,
    s2: Seq<BlockView>,
    fx: Seq<Effect>,
) -> bool {
    let r = Some(result);
    match kind {
        RequestKind::GetState => {
            let model = field_str(r, "model"@);
            &&& av2 == AppView { current_model: Some(model), footer_model: model, footer_pwd: field_str(r, "cwd"@), ..av }
            &&& s2 == s
            &&& fx == seq![Effect::ShowFooterModel, Effect::ShowFooterPwd, Effect::SyncModelList]
        },
        RequestKind::ListModels => {
            &&& stably_sorted(av2.models, listed_models(result), model_order())
            &&& av2 == AppView {
                models: av2.models,
                filtered_models: filtered_model_views(av2.models, av.model_filter_text),
                ..av
            }
            &&& s2 == s
            &&& fx == seq![Effect::SyncModelList]
        },
        RequestKind::SetModel => {
            let model = field_str(r, "model"@);
            let av1 = AppView { current_model: Some(model), footer_model: model, ..av };
            &&& s2 == pushed_info(s, "\u{2192} model: "@ + model)
            &&& if json_get(result, "contextWindow"@) is Some {
                &&& av2 == AppView {
                    usage: Usage {
                        ctx_window: field_u64(r, "contextWindow"@),
                        ctx_used: field_u64(r, "estimatedUsed"@),
                        util: clamp_u8(field_u64(r, "utilizationPercent"@)),
                        ..av.usage
                    },
                    ..av1
                }
                &&& fx == seq![Effect::ShowFooterModel, Effect::SyncModelList, Effect::TailAndRedraw, Effect::UpdateUsage]
            } else {
                &&& av2 == av1
                &&& fx == seq![
                    Effect::ShowFooterModel,
                    Effect::SyncModelList,
                    Effect::TailAndRedraw,
                    Effect::Call(AgentCall::GetSessionStats),
                ]
            }
        },
        RequestKind::ListProviders => {
            let ps = listed_providers(result);
            if ps.len() == 0 {
                &&& av2 == av
                &&& s2 == pushed_info(s, "No providers configured."@)
                &&& fx == seq![Effect::TailAndRedraw]
            } else {
                &&& av2 == AppView { providers: ps, ..av }
                &&& s2 == s
                &&& fx == seq![Effect::Redraw, Effect::OpenModal(Modal::Provider)]
            }
        },
        RequestKind::ListSessions => {
            let raw = listed_sessions(result);
            if raw.len() == 0 {
                &&& av2 == av
                &&& s2 == pushed_info(s, "No previous sessions."@)
                &&& fx == seq![Effect::TailAndRedraw]
            } else if av.resume_latest_requested {
                &&& exists|sorted: Seq<SessionView>, now: u64| {
                    &&& #[trigger] stably_sorted(sorted, raw, newest_first())
                    &&& av2 == AppView {
                        resume_latest_requested: false,
                        pending_resume_path: Some(sorted[0].path),
                        resume_confirm_meta: resume_meta(
                            recency_label(#[trigger] elapsed_secs(now as nat, sorted[0].mtime_secs as nat)),
                            sorted[0].entry_count,
                        ),
                        resume_confirm_path: sorted[0].path,
                        ..av
                    }
                }
                &&& s2 == s
                &&& fx == seq![Effect::OpenModal(Modal::ResumeConfirm)]
            } else {
                &&& stably_sorted(av2.sessions, raw, newest_first())
                &&& av2 == AppView { sessions: av2.sessions, ..av }
                &&& s2 == s
                &&& fx == seq![Effect::Redraw, Effect::OpenModal(Modal::Session)]
            }
        },
        RequestKind::ResumeSession => {
            let model = field_str(r, "model"@);
            let cwd = field_str(r, "cwd"@);
            &&& av2 == AppView { current_model: Some(model), footer_model: model, footer_pwd: cwd, ..av }
            &&& s2 == pushed_info(s, "\u{21bb} resumed session ("@ + cwd + ")"@)
            &&& fx == seq![Effect::ShowFooterModel, Effect::ShowFooterPwd, Effect::TailAndRedraw]
        },
        RequestKind::GetSessionStats => {
            let api = json_get(result, "apiUsage"@);
            let show = av.stats_requested || av.context_modal_requested;
            &&& av2 == AppView {
                usage: Usage {
                    input: field_u64(api, "totalInputTokens"@),
                    output: field_u64(api, "totalOutputTokens"@),
                    cached: field_u64(api, "totalCachedTokens"@),
                    ctx_used: field_u64(r, "estimatedUsed"@),
                    ctx_window: field_u64(r, "contextWindow"@),
                    util: clamp_u8(field_u64(r, "utilizationPercent"@)),
                },
                stats_requested: false,
                context_modal_requested: false,
                stats_result: if show { result } else { av.stats_result },
                ..av
            }
            &&& s2 == s
            &&& fx == seq![Effect::SetCost(field_number(api, "totalCost"@)), Effect::UpdateUsage] + (if show {
                seq![Effect::ShowStats { stats: av.stats_requested, context: av.context_modal_requested }]
            } else {
                Seq::empty()
            })
        },
        RequestKind::ReloadExtensions => {
            &&& av2 == av
            &&& s2 == pushed_info(
                s,
                "\u{2713} extensions reloaded (+"@ + decimal(field_u64(r, "added"@) as nat) + " ~"@
                    + decimal(field_u64(r, "reloaded"@) as nat) + " -"@
                    + decimal(field_u64(r, "removed"@) as nat) + ")"@,
            )
            &&& fx == seq![Effect::TailAndRedraw]
        },
        RequestKind::ListExtensions => {
            &&& av2 == AppView { extensions_body: extensions_view(result), ..av }
            &&& s2 == s
            &&& fx == seq![Effect::OpenModal(Modal::Extensions)]
        },
        RequestKind::Compact => {
            &&& av2 == av
            &&& s2 == pushed_info(s, "\u{2713} compacted"@)
            &&& fx == seq![Effect::TailAndRedraw, Effect::Call(AgentCall::GetSessionStats)]
        },
        RequestKind::Clear => {
            &&& av2 == av
            &&& s2 == seq![BlockView::Info("\u{2713} conversation cleared"@)]
            &&& fx == seq![Effect::TailAndRedraw, Effect::Call(AgentCall::GetSessionStats)]
        },
        RequestKind::NewSession => {
            &&& av2 == av
            &&& s2 == seq![BlockView::Info("\u{2713} new session"@)]
            &&& fx == seq![Effect::TailAndRedraw, Effect::Call(AgentCall::GetSessionStats)]
        },
    }
}

// ── Reading answers ─────────────────────────────────────────────────────────

/// The models of a `listModels` result.
fn parse_models(result: &Json) -> (r: Vec<ModelChoice>)
    ensures
        model_views(r@) == listed_models(*result),
{
    let mut out: Vec<ModelChoice> = Vec::new();
    match result.get("models") {
        Some(Json::Array(arr)) => {
            let ghost f = |e: Json| model_of(e);
            assert(arr@.take(0).filter_map(f) =~= Seq::<ModelView>::empty());
            assert(model_views(out@) =~= Seq::<ModelView>::empty());
            let n = arr.len();
            for i in 0..n
                invariant
                    n == arr@.len(),
                    f == (|e: Json| model_of(e)),
                    model_views(out@) == arr@.take(i as int).filter_map(f),
            {
                let e = &arr[i];
                let ghost before = model_views(out@);
                assert(arr@.take(i + 1).drop_last() =~= arr@.take(i as int));
                assert(arr@.take(i + 1).last() == *e);
                match e.get("id") {
                    Some(Json::Str(id)) => {
                        out.push(ModelChoice { id: id.clone(), provider: jstr(Some(e), "provider") });
                        assert(model_views(out@) =~= before + seq![model_of(*e)->0]);
                    },
                    _ => {
                        assert(model_views(out@) =~= before);
                    },
                }
            }
            assert(arr@.take(n as int) =~= arr@);
        },
        _ => {
            assert(model_views(out@) =~= Seq::<ModelView>::empty());
        },
    }
    out
}

/// The sessions of a `listSessions` result, in the order given.
fn parse_sessions(result: &Json) -> (r: Vec<SessionEntry>)
    ensures
        session_views(r@) == listed_sessions(*result),
{
    let mut out: Vec<SessionEntry> = Vec::new();
    match result.get("sessions") {
        Some(Json::Array(arr)) => {
            let n = arr.len();
            for i in 0..n
                invariant
                    n == arr@.len(),
                    out@.len() == i,
                    forall|j: int| 0 <= j < i ==> #[trigger] out@[j]@ == session_of(arr@[j]),
            {
                let e = &arr[i];
                out.push(SessionEntry {
                    path: jstr(Some(e), "path"),
                    mtime_secs: ju64(Some(e), "mtimeSecs"),
                    entry_count: ju64(Some(e), "entryCount"),
                });
            }
            assert(session_views(out@) =~= arr@.map_values(|e: Json| session_of(e)));
        },
        _ => {
            assert(session_views(out@) =~= Seq::<SessionView>::empty());
        },
    }
    out
}

/// The providers of a `listProviders` result, in the order given.
fn parse_providers(result: &Json) -> (r: Vec<ProviderEntry>)
    ensures
        provider_views(r@) == listed_providers(*result),
{
    let mut out: Vec<ProviderEntry> = Vec::new();
    match result.get("providers") {
        Some(Json::Array(arr)) => {
            let n = arr.len();
            for i in 0..n
                invariant
                    n == arr@.len(),
                    out@.len() == i,
                    forall|j: int| 0 <= j < i ==> #[trigger] out@[j]@ == provider_of(arr@[j]),
            {
                let e = &arr[i];
                out.push(ProviderEntry {
                    name: jstr(Some(e), "name"),
                    reachable: jbool(Some(e), "reachable"),
                    active: jbool(Some(e), "active"),
                    is_external: jbool(Some(e), "isExternal"),
                });
            }
            assert(provider_views(out@) =~= arr@.map_values(|e: Json| provider_of(e)));
        },
        _ => {
            assert(provider_views(out@) =~= Seq::<ProviderView>::empty());
        },
    }
    out
}

/// Appends the extensions-modal line for one extension.
fn push_extension_line(s: &mut String, e: &Json)
    ensures
        final(s)@ == old(s)@ + extension_line(*e),
{
    let name = jstr(Some(e), "name");
    let status = jstr(Some(e), "status");
    let tools = ju64(Some(e), "toolCount");
    let ghost start = s@;
    s.append("  ");
    s.append(name.as_str());
    if !status.as_str().is_empty() {
        s.append(" \u{2014} ");
        s.append(status.as_str());
    }
    if tools > 0 {
        s.append(" (");
        push_decimal(s, tools);
        s.append(" tools)");
    }
}

/// The extension lines joined with newlines.
fn extension_lines(arr: &Vec<Json>) -> (r: String)
    ensures
        r@ == join_lines(arr@.map_values(|e: Json| extension_line(e))),
{
    let ghost lines = arr@.map_values(|e: Json| extension_line(e));
    let mut s = String::new();
    let n = arr.len();
    assert(lines.take(0) =~= Seq::<Seq<char>>::empty());
    for i in 0..n
        invariant
            n == arr@.len(),
            lines == arr@.map_values(|e: Json| extension_line(e)),
            s@ == join_lines(lines.take(i as int)),
    {
        if i > 0 {
            s.append("\n");
        }
        let ghost before = s@;
        push_extension_line(&mut s, &arr[i]);
        proof {
            assert(lines.take(i + 1).drop_last() =~= lines.take(i as int));
            if i == 0 {
                assert(before =~= Seq::<char>::empty());
                assert(s@ =~= lines.take(1)[0]);
            }
        }
    }
    assert(lines.take(n as int) =~= lines);
    s
}

/// The effect list `[a]`.
pub(crate) fn effects1(a: Effect) -> (r: Vec<Effect>)
    ensures
        r@ == seq![a],
{
    let mut v: Vec<Effect> = Vec::new();
    v.push(a);
    v
}

/// The effect list `[a, b]`.
pub(crate) fn effects2(a: Effect, b: Effect) -> (r: Vec<Effect>)
    ensures
        r@ == seq![a, b],
{
    let mut v = effects1(a);
    v.push(b);
    assert(v@ =~= seq![a, b]);
    v
}

/// The effect list `[a, b, c]`.
pub(crate) fn effects3(a: Effect, b: Effect, c: Effect) -> (r: Vec<Effect>)
    ensures
        r@ == seq![a, b, c],
{
    let mut v = effects2(a, b);
    v.push(c);
    assert(v@ =~= seq![a, b, c]);
    v
}

/// The effect list `[a, b, c, d]`.
pub(crate) fn effects4(a: Effect, b: Effect, c: Effect, d: Effect) -> (r: Vec<Effect>)
    ensures
        r@ == seq![a, b, c, d],
{
    let mut v = effects3(a, b, c);
    v.push(d);
    assert(v@ =~= seq![a, b, c, d]);
    v
}

// ── Applying events ─────────────────────────────────────────────────────────

/// Pushes an info line, finalizing any streaming response first.
pub fn push_info(store: &mut ChatStore, text: String)
    ensures
        final(store)@ == pushed_info(old(store)@, text@),
{
    store.push_after_finalizing_response(ChatBlock::Info(text));
}

/// A new string holding `a` followed by `b`.
pub(crate) fn joined(a: &str, b: &str) -> (r: String)
    ensures
        r@ == a@ + b@,
{
    let mut s = String::from_str(a);
    s.append(b);
    s
}

/// The Debug name of a request kind.
pub fn request_kind_name(kind: RequestKind) -> (r: &'static str)
    ensures
        r@ == kind_name(kind),
{
    match kind {
        RequestKind::GetState => "GetState",
        RequestKind::GetSessionStats => "GetSessionStats",
        RequestKind::ListModels => "ListModels",
        RequestKind::ListProviders => "ListProviders",
        RequestKind::ListSessions => "ListSessions",
        RequestKind::SetModel => "SetModel",
        RequestKind::ResumeSession => "ResumeSession",
        RequestKind::ReloadExtensions => "ReloadExtensions",
        RequestKind::ListExtensions => "ListExtensions",
        RequestKind::Compact => "Compact",
        RequestKind::Clear => "Clear",
        RequestKind::NewSession => "NewSession",
    }
}

impl AppState {
    /// Ends the agent turn in the state.
    fn stop_working(&mut self)
        ensures
            final(self)@ == stopped(old(self)@),
    {
        self.busy = false;
        self.steer_count = 0;
    }

    /// The answer to `listSessions`.
    fn on_sessions(&mut self, store: &mut ChatStore, result: Json) -> (fx: Vec<Effect>)
        ensures
            response_step(old(self)@, old(store)@, RequestKind::ListSessions, result, final(self)@, final(store)@, fx@),
    {
        let ghost av = self@;
        let ghost s = store@;
        let ghost res = result;
        let ghost kind = RequestKind::ListSessions;
        let parsed = parse_sessions(&result);
        if parsed.len() == 0 {
            assert(listed_sessions(res).len() == 0);
            push_info(store, String::from_str("No previous sessions."));
            let fx = effects1(Effect::TailAndRedraw);
            assert(fx@ == seq![Effect::TailAndRedraw]);
            return fx;
        }
        let ghost raw = session_views(parsed@);
        let sessions = sort_sessions_newest_first(parsed);
        proof {
            lemma_newest_first_preorder();
            lemma_stably_sorted_nonempty(session_views(sessions@), raw, newest_first());
        }
        if self.resume_latest_requested {
            let first = &sessions[0];
            let recency = relative_time(first.mtime_secs);
            let ghost now = choose|now: u64| recency@ == recency_label(#[trigger] elapsed_secs(now as nat, first.mtime_secs as nat));
            let mut meta = recency;
            meta.append(" \u{00b7} ");
            push_decimal(&mut meta, first.entry_count);
            meta.append(" entries");
            self.resume_latest_requested = false;
            self.pending_resume_path = Some(first.path.clone());
            self.resume_confirm_meta = meta;
            self.resume_confirm_path = first.path.clone();
            let ghost sorted = session_views(sessions@);
            assert(sorted[0] == first@);
            assert(meta@ == resume_meta(recency_label(elapsed_secs(now as nat, sorted[0].mtime_secs as nat)), sorted[0].entry_count));
            assert(self@ == AppView {
                resume_latest_requested: false,
                pending_resume_path: Some(sorted[0].path),
                resume_confirm_meta: resume_meta(
                    recency_label(elapsed_secs(now as nat, sorted[0].mtime_secs as nat)),
                    sorted[0].entry_count,
                ),
                resume_confirm_path: sorted[0].path,
                ..av
            });
            assert(stably_sorted(sorted, listed_sessions(res), newest_first()));
            let fx = effects1(Effect::OpenModal(Modal::ResumeConfirm));
            assert(fx@ == seq![Effect::OpenModal(Modal::ResumeConfirm)]);
            assert(response_step(av, s, kind, res, self@, store@, fx@));
            fx
        } else {
            self.sessions = sessions;
            let fx = effects2(Effect::Redraw, Effect::OpenModal(Modal::Session));
            assert(stably_sorted(self@.sessions, listed_sessions(res), newest_first()));
            assert(self@ == AppView { sessions: self@.sessions, ..av });
            assert(fx@ == seq![Effect::Redraw, Effect::OpenModal(Modal::Session)]);
            fx
        }
    }

    /// The answer to a request of kind `GetState`.
    fn on_state(&mut self, store: &mut ChatStore, result: Json) -> (fx: Vec<Effect>)
        ensures
            response_step(old(self)@, old(store)@, RequestKind::GetState, result, final(self)@, final(store)@, fx@),
    {
        let ghost av = self@;
        let ghost s = store@;
        let ghost res = result;
        let ghost kind = RequestKind::GetState;
        let model = jstr(Some(&result), "model");
        let cwd = jstr(Some(&result), "cwd");
        self.current_model = Some(model.clone());
        self.footer_model = model;
        self.footer_pwd = cwd;
        effects3(Effect::ShowFooterModel, Effect::ShowFooterPwd, Effect::SyncModelList)
    
    }

    /// The answer to a request of kind `ListModels`.
    fn on_models(&mut self, store: &mut ChatStore, result: Json) -> (fx: Vec<Effect>)
        ensures
            response_step(old(self)@, old(store)@, RequestKind::ListModels, result, final(self)@, final(store)@, fx@),
    {
        let ghost av = self@;
        let ghost s = store@;
        let ghost res = result;
        let ghost kind = RequestKind::ListModels;
        let models = sort_models(parse_models(&result));
        let filtered = filter_models(&models, self.model_filter_text.as_str());
        self.models = models;
        self.filtered_models = filtered;
        let fx = effects1(Effect::SyncModelList);
        assert(stably_sorted(self@.models, listed_models(res), model_order()));
        assert(self@.filtered_models == filtered_model_views(self@.models, av.model_filter_text));
        assert(self@ == AppView { models: self@.models, filtered_models: filtered_model_views(self@.models, av.model_filter_text), ..av });
        assert(fx@ == seq![Effect::SyncModelList]);
        fx
    
    }

    /// The answer to a request of kind `SetModel`.
    fn on_set_model(&mut self, store: &mut ChatStore, result: Json) -> (fx: Vec<Effect>)
        ensures
            response_step(old(self)@, old(store)@, RequestKind::SetModel, result, final(self)@, final(store)@, fx@),
    {
        let ghost av = self@;
        let ghost s = store@;
        let ghost res = result;
        let ghost kind = RequestKind::SetModel;
        let model = jstr(Some(&result), "model");
        self.current_model = Some(model.clone());
        self.footer_model = model.clone();
        push_info(store, joined("\u{2192} model: ", model.as_str()));
        if result.get("contextWindow").is_some() {
            let percent = ju64(Some(&result), "utilizationPercent");
            self.usage.ctx_window = ju64(Some(&result), "contextWindow");
            self.usage.ctx_used = ju64(Some(&result), "estimatedUsed");
            self.usage.util = if percent > 255 { 255 } else { percent as u8 };
            effects4(Effect::ShowFooterModel, Effect::SyncModelList, Effect::TailAndRedraw, Effect::UpdateUsage)
        } else {
            effects4(Effect::ShowFooterModel, Effect::SyncModelList, Effect::TailAndRedraw, Effect::Call(AgentCall::GetSessionStats))
        }
    
    }

    /// The answer to a request of kind `ListProviders`.
    fn on_providers(&mut self, store: &mut ChatStore, result: Json) -> (fx: Vec<Effect>)
        ensures
            response_step(old(self)@, old(store)@, RequestKind::ListProviders, result, final(self)@, final(store)@, fx@),
    {
        let ghost av = self@;
        let ghost s = store@;
        let ghost res = result;
        let ghost kind = RequestKind::ListProviders;
        let providers = parse_providers(&result);
        if providers.len() == 0 {
            push_info(store, String::from_str("No providers configured."));
            effects1(Effect::TailAndRedraw)
        } else {
            self.providers = providers;
            effects2(Effect::Redraw, Effect::OpenModal(Modal::Provider))
        }
    
    }

    /// The answer to a request of kind `ResumeSession`.
    fn on_resume(&mut self, store: &mut ChatStore, result: Json) -> (fx: Vec<Effect>)
        ensures
            response_step(old(self)@, old(store)@, RequestKind::ResumeSession, result, final(self)@, final(store)@, fx@),
    {
        let ghost av = self@;
        let ghost s = store@;
        let ghost res = result;
        let ghost kind = RequestKind::ResumeSession;
        let model = jstr(Some(&result), "model");
        let cwd = jstr(Some(&result), "cwd");
        self.current_model = Some(model.clone());
        self.footer_model = model;
        let mut line = joined("\u{21bb} resumed session (", cwd.as_str());
        line.append(")");
        self.footer_pwd = cwd;
        push_info(store, line);
        effects3(Effect::ShowFooterModel, Effect::ShowFooterPwd, Effect::TailAndRedraw)
    
    }

    /// The answer to a request of kind `GetSessionStats`.
    fn on_stats(&mut self, store: &mut ChatStore, result: Json) -> (fx: Vec<Effect>)
        ensures
            response_step(old(self)@, old(store)@, RequestKind::GetSessionStats, result, final(self)@, final(store)@, fx@),
    {
        let ghost av = self@;
        let ghost s = store@;
        let ghost res = result;
        let ghost kind = RequestKind::GetSessionStats;
        let api = result.get("apiUsage");
        assert(crate::json::opt_ref(api) == json_get(res, "apiUsage"@));
        let percent = ju64(Some(&result), "utilizationPercent");
        self.usage = Usage {
            input: ju64(api, "totalInputTokens"),
            output: ju64(api, "totalOutputTokens"),
            cached: ju64(api, "totalCachedTokens"),
            ctx_used: ju64(Some(&result), "estimatedUsed"),
            ctx_window: ju64(Some(&result), "contextWindow"),
            util: if percent > 255 { 255 } else { percent as u8 },
        };
        let cost = jnumber(api, "totalCost");
        let stats = self.stats_requested;
        let context = self.context_modal_requested;
        self.stats_requested = false;
        self.context_modal_requested = false;
        let mut fx = effects2(Effect::SetCost(cost), Effect::UpdateUsage);
        if stats || context {
            self.stats_result = result;
            fx.push(Effect::ShowStats { stats, context });
            assert(fx@ =~= seq![Effect::SetCost(cost), Effect::UpdateUsage] + seq![Effect::ShowStats { stats, context }]);
        } else {
            assert(fx@ =~= seq![Effect::SetCost(cost), Effect::UpdateUsage] + Seq::<Effect>::empty());
        }
        fx
    }

    /// The answer to a request of kind `ReloadExtensions`.
    fn on_reload(&mut self, store: &mut ChatStore, result: Json) -> (fx: Vec<Effect>)
        ensures
            response_step(old(self)@, old(store)@, RequestKind::ReloadExtensions, result, final(self)@, final(store)@, fx@),
    {
        let ghost av = self@;
        let ghost s = store@;
        let ghost res = result;
        let ghost kind = RequestKind::ReloadExtensions;
        let mut line = String::from_str("\u{2713} extensions reloaded (+");
        push_decimal(&mut line, ju64(Some(&result), "added"));
        line.append(" ~");
        push_decimal(&mut line, ju64(Some(&result), "reloaded"));
        line.append(" -");
        push_decimal(&mut line, ju64(Some(&result), "removed"));
        line.append(")");
        push_info(store, line);
        effects1(Effect::TailAndRedraw)
    
    }

    /// The answer to a request of kind `ListExtensions`.
    fn on_extensions(&mut self, store: &mut ChatStore, result: Json) -> (fx: Vec<Effect>)
        ensures
            response_step(old(self)@, old(store)@, RequestKind::ListExtensions, result, final(self)@, final(store)@, fx@),
    {
        let ghost av = self@;
        let ghost s = store@;
        let ghost res = result;
        let ghost kind = RequestKind::ListExtensions;
        let text = match result.get("extensions") {
            Some(Json::Array(arr)) => Some(
                if arr.len() == 0 {
                    String::from_str("No extensions installed.")
                } else {
                    extension_lines(arr)
                },
            ),
            _ => None,
        };
        self.extensions_body = match text {
            Some(t) => ExtensionsBody::Text(t),
            None => ExtensionsBody::Raw(result),
        };
        effects1(Effect::OpenModal(Modal::Extensions))
    
    }

    /// The answer to a request of kind `Compact`.
    fn on_compact(&mut self, store: &mut ChatStore, result: Json) -> (fx: Vec<Effect>)
        ensures
            response_step(old(self)@, old(store)@, RequestKind::Compact, result, final(self)@, final(store)@, fx@),
    {
        let ghost av = self@;
        let ghost s = store@;
        let ghost res = result;
        let ghost kind = RequestKind::Compact;
        push_info(store, String::from_str("\u{2713} compacted"));
        effects2(Effect::TailAndRedraw, Effect::Call(AgentCall::GetSessionStats))
    
    }

    /// The answer to a request of kind `Clear`.
    fn on_clear(&mut self, store: &mut ChatStore, result: Json) -> (fx: Vec<Effect>)
        ensures
            response_step(old(self)@, old(store)@, RequestKind::Clear, result, final(self)@, final(store)@, fx@),
    {
        let ghost av = self@;
        let ghost s = store@;
        let ghost res = result;
        let ghost kind = RequestKind::Clear;
        store.clear();
        push_info(store, String::from_str("\u{2713} conversation cleared"));
        effects2(Effect::TailAndRedraw, Effect::Call(AgentCall::GetSessionStats))
    
    }

    /// The answer to a request of kind `NewSession`.
    fn on_new_session(&mut self, store: &mut ChatStore, result: Json) -> (fx: Vec<Effect>)
        ensures
            response_step(old(self)@, old(store)@, RequestKind::NewSession, result, final(self)@, final(store)@, fx@),
    {
        let ghost av = self@;
        let ghost s = store@;
        let ghost res = result;
        let ghost kind = RequestKind::NewSession;
        store.clear();
        push_info(store, String::from_str("\u{2713} new session"));
        effects2(Effect::TailAndRedraw, Effect::Call(AgentCall::GetSessionStats))
    }

    /// Map one answer to a tracked request onto the scrollback and the state.
    pub fn handle_response(&mut self, store: &mut ChatStore, kind: RequestKind, result: Json) -> (fx: Vec<Effect>)
        ensures
            response_step(old(self)@, old(store)@, kind, result, final(self)@, final(store)@, fx@),
    {
        match kind {
            RequestKind::GetState => self.on_state(store, result),
            RequestKind::ListModels => self.on_models(store, result),
            RequestKind::SetModel => self.on_set_model(store, result),
            RequestKind::ListProviders => self.on_providers(store, result),
            RequestKind::ListSessions => self.on_sessions(store, result),
            RequestKind::ResumeSession => self.on_resume(store, result),
            RequestKind::GetSessionStats => self.on_stats(store, result),
            RequestKind::ReloadExtensions => self.on_reload(store, result),
            RequestKind::ListExtensions => self.on_extensions(store, result),
            RequestKind::Compact => self.on_compact(store, result),
            RequestKind::Clear => self.on_clear(store, result),
            RequestKind::NewSession => self.on_new_session(store, result),
        }
    }
}

impl AppState {
    /// Whether the token counters can take `ev` without overflowing.
    pub fn accepts(&self, ev: &RhoEvent) -> (r: bool)
        ensures
            r == event_fits(self@, ev@),
    {
        match ev {
            RhoEvent::Usage { input_tokens, output_tokens, cached_tokens, .. } => {
                *input_tokens <= u64::MAX - self.usage.input
                    && *output_tokens <= u64::MAX - self.usage.output
                    && *cached_tokens <= u64::MAX - self.usage.cached
            },
            _ => true,
        }
    }

    /// Map one agent event onto the scrollback and the state, returning the
    /// effects for the window and the agent connection, in order.
    pub fn handle_rho_event(&mut self, store: &mut ChatStore, ev: RhoEvent) -> (fx: Vec<Effect>)
        requires
            event_fits(old(self)@, ev@),
        ensures
            event_step(old(self)@, old(store)@, ev@, final(self)@, final(store)@, fx@),
    {
        let ghost av = self@;
        let ghost s = store@;
        let ghost evv = ev@;
        match ev {
            RhoEvent::Ready => {
                push_info(store, String::from_str("\u{2713} Connected to rho"));
                effects4(
                    Effect::TailAndRedraw,
                    Effect::Call(AgentCall::GetState),
                    Effect::Call(AgentCall::ListModels),
                    Effect::Call(AgentCall::GetSessionStats),
                )
            },
            RhoEvent::AgentStart => {
                self.busy = true;
                self.working_state = String::new();
                effects1(Effect::StartWorking)
            },
            RhoEvent::MessageDelta { delta } => {
                store.append_streaming_response(delta.as_str());
                self.stream_dirty = true;
                Vec::new()
            },
            RhoEvent::ReasoningDelta { delta } => {
                store.finalize_streaming_response();
                store.append_streaming_reasoning(delta.as_str());
                self.stream_dirty = true;
                Vec::new()
            },
            RhoEvent::AgentEnd { reply, duration_ms } => {
                store.finalize_reasoning(format_secs(duration_ms));
                store.finalize_streaming_response();
                store.push_final_response_if_missing(reply);
                self.stop_working();
                effects3(Effect::StopWorking, Effect::Call(AgentCall::GetSessionStats), Effect::TailAndRedraw)
            },
            RhoEvent::AgentError { error } => {
                push_info(store, joined("\u{26a0} ", error.as_str()));
                self.stop_working();
                effects2(Effect::TailAndRedraw, Effect::StopWorking)
            },
            RhoEvent::StateChange { state } => {
                let idle = crate::text::same_text(state.as_str(), "idle");
                self.working_state = state;
                if idle && self.busy {
                    self.stop_working();
                    effects2(Effect::TickWorking, Effect::StopWorking)
                } else {
                    effects1(Effect::TickWorking)
                }
            },
            RhoEvent::ToolCall { name, arguments } => {
                store.finalize_streaming_response();
                store.push_pending_tool_call(name, arguments);
                effects1(Effect::TailAndRedraw)
            },
            RhoEvent::ToolResult { name, is_error, output } => {
                let status = if is_error { ToolStatus::Error } else { ToolStatus::Success };
                let output = if output.as_str().is_empty() { None } else { Some(output) };
                store.finalize_tool_call(name.as_str(), status, output);
                effects1(Effect::TailAndRedraw)
            },
            RhoEvent::ToolDenied { name } => {
                store.finalize_tool_call(
                    name.as_str(),
                    ToolStatus::Denied,
                    Some(String::from_str("denied by approval gate")),
                );
                effects1(Effect::TailAndRedraw)
            },
            RhoEvent::ApprovalRequest { tool, arguments, risk } => {
                store.push_approval(tool, arguments, risk);
                effects1(Effect::TailAndRedraw)
            },
            RhoEvent::Usage { input_tokens, output_tokens, cached_tokens, cost, context_used, context_window, utilization } => {
                self.usage.input = self.usage.input + input_tokens;
                self.usage.output = self.usage.output + output_tokens;
                self.usage.cached = self.usage.cached + cached_tokens;
                self.usage.ctx_used = context_used;
                self.usage.ctx_window = context_window;
                self.usage.util = utilization;
                effects2(Effect::AddCost(cost), Effect::UpdateUsage)
            },
            RhoEvent::Response { kind, result } => self.handle_response(store, kind, result),
            RhoEvent::RequestError { kind, error } => {
                let mut line = joined("\u{26a0} ", request_kind_name(kind));
                line.append(" failed: ");
                line.append(error.as_str());
                push_info(store, line);
                effects1(Effect::TailAndRedraw)
            },
            RhoEvent::Closed => {
                push_info(store, String::from_str("rho process exited."));
                self.stop_working();
                effects3(Effect::TailAndRedraw, Effect::DropAgent, Effect::StopWorking)
            },
        }
    }
}

} // verus!
