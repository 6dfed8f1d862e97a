use vstd::prelude::*;
use crate::actions::{answer_resolution, press_step, submitted, submitted_scrollback, submit_effects, picked_model_effects, MenuButton};
use crate::chat::model::{BlockView, ResolutionView, ToolStatus};
use crate::chat::store::{finalized_response, with_final_response, with_resolution, is_last_pending_call, is_pending_call, lemma_last_pending_unique};
use crate::controller::{AgentCall, AppView, Effect, Modal, event_step, response_step};
use crate::formatting::{capped_head, capped_tail};
use crate::json::{Json, json_get, field_u64, field_number, field_str};
use crate::protocol::{EventView, RequestKind, notification_event, clamp_u8};
use crate::rpc::{accepted, message_id};
use crate::json::{opt_get, field_bool};
use crate::render::{rendered, Template, OUTPUT_CAP, RESPONSE_CAP};
use crate::text::decimal;

verus! {

// ── Drawing a tool call ─────────────────────────────────────────────────────

/// A tool call is drawn by its status: a successful one with the "done"
/// template and a head ending in "✓ done", a failed one with the "fail"
/// template and "✗ failed", a running one with the "run" template and
/// "⟳ running", a denied one with the "run" template and "⊘ denied". The
/// head is the name and arguments before that mark; there is no main text
/// and no approval control; the output is shown whole when expanded or
/// short, else its first 10000 characters and a count of the rest, and the
/// expand button shows exactly when the output is longer than that.
pub proof fn law_tool_call_drawn_by_status(
    name: Seq<char>,
    args: Seq<char>,
    status: ToolStatus,
    output: Option<Seq<char>>,
    expanded: bool,
)
    ensures
        ({
            let r = rendered(BlockView::ToolCall { name: name, args: args, status: status, output: output, expanded: expanded });
            let head = |mark: Seq<char>| Some(name + " "@ + args + " "@ + mark);
            &&& status == ToolStatus::Success ==> r.template == crate::render::Template::ToolDone && r.head == head("\u{2713} done"@)
            &&& status == ToolStatus::Error ==> r.template == crate::render::Template::ToolFail && r.head == head("\u{2717} failed"@)
            &&& status == ToolStatus::Pending ==> r.template == crate::render::Template::ToolRun && r.head == head("\u{27f3} running"@)
            &&& status == ToolStatus::Denied ==> r.template == crate::render::Template::ToolRun && r.head == head("\u{2298} denied"@)
            &&& r.body is None
            &&& !r.show_actions
            &&& r.resolved is None
            &&& output is None ==> r.output is None && r.toggle is None
            &&& output matches Some(o) ==> {
                &&& (expanded || o.len() <= 10000) ==> r.output == Some(o)
                &&& (!expanded && o.len() > 10000) ==> r.output == Some(
                    o.take(10000) + "\n\u{2026} ("@ + decimal((o.len() - 10000) as nat) + " more chars)"@,
                )
                &&& o.len() <= 10000 ==> r.toggle is None
                &&& o.len() > 10000 ==> r.toggle == Some(if expanded { "Collapse"@ } else { "Expand"@ })
            }
        }),
{
    assert(OUTPUT_CAP == 10000);
    match output {
        Some(o) => {
            if !expanded && o.len() > 10000 {
                assert(capped_head(o, 10000) == o.take(10000) + "\n\u{2026} ("@ + decimal((o.len() - 10000) as nat) + " more chars)"@);
            }
        },
        None => {},
    }
}

/// A successful and a failed call of the same tool are never drawn alike:
/// their templates and heads differ.
pub proof fn law_failed_call_not_drawn_as_success(
    name: Seq<char>,
    args: Seq<char>,
    output: Option<Seq<char>>,
    expanded: bool,
)
    ensures
        ({
            let ok = rendered(BlockView::ToolCall { name: name, args: args, status: ToolStatus::Success, output: output, expanded: expanded });
            let bad = rendered(BlockView::ToolCall { name: name, args: args, status: ToolStatus::Error, output: output, expanded: expanded });
            &&& ok.template != bad.template
            &&& ok.head != bad.head
        }),
{
    law_tool_call_drawn_by_status(name, args, ToolStatus::Success, output, expanded);
    law_tool_call_drawn_by_status(name, args, ToolStatus::Error, output, expanded);
    let a = name + " "@ + args + " "@;
    reveal_strlit("\u{2713} done");
    reveal_strlit("\u{2717} failed");
    assert((a + "\u{2713} done"@)[a.len() as int] == '\u{2713}');
    assert((a + "\u{2717} failed"@)[a.len() as int] == '\u{2717}');
}

// ── A tool result arriving ──────────────────────────────────────────────────

/// When the result of tool `name` arrives, the most recent call of that
/// name still running takes the status the result reports (failed exactly
/// when it says it is an error, else succeeded) and its output (none when
/// empty); it keeps its name, arguments and expanded state; no other block
/// changes, no block is added, and the window state is untouched.
pub proof fn law_tool_result_sets_status(
    av: AppView,
    s: Seq<BlockView>,
    name: Seq<char>,
    is_error: bool,
    output: Seq<char>,
    i: int,
    av2: AppView,
    s2: Seq<BlockView>,
    fx: Seq<Effect>,
)
    requires
        is_last_pending_call(s, name, i),
        event_step(av, s, EventView::ToolResult { name: name, is_error: is_error, output: output }, av2, s2, fx),
    ensures
        av2 == av,
        s2.len() == s.len(),
        forall|j: int| 0 <= j < s.len() && j != i ==> s2[j] == s[j],
        s2[i] matches BlockView::ToolCall { name: n, args, status, output: o, expanded }
            && n == name
            && args == s[i]->args
            && expanded == s[i]->ToolCall_expanded
            && (is_error ==> status == ToolStatus::Error)
            && (!is_error ==> status == ToolStatus::Success)
            && (output.len() == 0 ==> o is None)
            && (output.len() > 0 ==> o == Some(output)),
{
    lemma_last_pending_unique(s, name, i);
}

/// A denied tool's most recent running call is marked denied, with the
/// gate's note as its output; nothing else changes.
pub proof fn law_tool_denied_sets_status(
    av: AppView,
    s: Seq<BlockView>,
    name: Seq<char>,
    i: int,
    av2: AppView,
    s2: Seq<BlockView>,
    fx: Seq<Effect>,
)
    requires
        is_last_pending_call(s, name, i),
        event_step(av, s, EventView::ToolDenied { name: name }, av2, s2, fx),
    ensures
        av2 == av,
        s2.len() == s.len(),
        forall|j: int| 0 <= j < s.len() && j != i ==> s2[j] == s[j],
        s2[i] matches BlockView::ToolCall { name: n, status, output: o, .. }
            && n == name && status == ToolStatus::Denied && o == Some("denied by approval gate"@),
{
    lemma_last_pending_unique(s, name, i);
}

/// A result for a tool with no running call adds one finished call of that
/// name, with the reported status and output, at the end.
pub proof fn law_tool_result_without_call_is_added(
    av: AppView,
    s: Seq<BlockView>,
    name: Seq<char>,
    is_error: bool,
    output: Seq<char>,
    av2: AppView,
    s2: Seq<BlockView>,
    fx: Seq<Effect>,
)
    requires
        forall|j: int| 0 <= j < s.len() ==> !is_pending_call(#[trigger] s[j], name),
        event_step(av, s, EventView::ToolResult { name: name, is_error: is_error, output: output }, av2, s2, fx),
    ensures
        s2.len() == s.len() + 1,
        s2.take(s.len() as int) == s,
        s2.last() matches BlockView::ToolCall { name: n, args, status, output: o, expanded }
            && n == name
            && args.len() == 0
            && !expanded
            && (is_error ==> status == ToolStatus::Error)
            && (!is_error ==> status == ToolStatus::Success)
            && (output.len() == 0 ==> o is None)
            && (output.len() > 0 ==> o == Some(output)),
{
    assert(!exists|i: int| is_last_pending_call(s, name, i));
    assert(s2.take(s.len() as int) =~= s);
}

// ── Session statistics ──────────────────────────────────────────────────────

/// The answer to `getSessionStats` sets the usage counters from it: input,
/// output and cached tokens from `apiUsage.totalInputTokens`,
/// `totalOutputTokens` and `totalCachedTokens`, the context use, window and
/// utilization (at most 255) from the top level, and the running cost from
/// `apiUsage.totalCost`; it clears both requests for a modal and shows the
/// modals that were asked for; the scrollback is untouched.
pub proof fn law_stats_answer_sets_usage(
    av: AppView,
    s: Seq<BlockView>,
    result: Json,
    av2: AppView,
    s2: Seq<BlockView>,
    fx: Seq<Effect>,
)
    requires
        response_step(av, s, RequestKind::GetSessionStats, result, av2, s2, fx),
    ensures
        ({
            let api = json_get(result, "apiUsage"@);
            let util = field_u64(Some(result), "utilizationPercent"@);
            &&& av2.usage.input == field_u64(api, "totalInputTokens"@)
            &&& av2.usage.output == field_u64(api, "totalOutputTokens"@)
            &&& av2.usage.cached == field_u64(api, "totalCachedTokens"@)
            &&& av2.usage.ctx_used == field_u64(Some(result), "estimatedUsed"@)
            &&& av2.usage.ctx_window == field_u64(Some(result), "contextWindow"@)
            &&& (util <= 255 ==> av2.usage.util == util)
            &&& (util > 255 ==> av2.usage.util == 255)
            &&& fx[0] == Effect::SetCost(field_number(api, "totalCost"@))
            &&& fx[1] == Effect::UpdateUsage
            &&& !av2.stats_requested && !av2.context_modal_requested
            &&& (av.stats_requested || av.context_modal_requested) ==> fx.len() == 3
                && fx[2] == (Effect::ShowStats { stats: av.stats_requested, context: av.context_modal_requested })
                && av2.stats_result == result
            &&& !(av.stats_requested || av.context_modal_requested) ==> fx.len() == 2
            &&& av2.busy == av.busy && av2.models == av.models && av2.current_model == av.current_model
            &&& s2 == s
        }),
{
}

// ── The final reply of a turn ───────────────────────────────────────────────

/// The agent's final reply is added as a collapsed response exactly when it
/// is not empty and the scrollback does not already end with a response,
/// whatever the last block is; otherwise the scrollback is unchanged.
pub proof fn law_final_reply_kept(s: Seq<BlockView>, reply: Seq<char>)
    ensures
        ({
            let t = with_final_response(s, reply);
            let ends_with_response = s.len() > 0 && s.last() is Response;
            &&& (reply.len() > 0 && !ends_with_response) ==> t == s.push(BlockView::Response { text: reply, expanded: false })
            &&& (reply.len() == 0 || ends_with_response) ==> t == s
        }),
{
}

/// A turn that ends with a non-empty reply always leaves a response as the
/// last block; when nothing was streamed since the last non-response block,
/// that response is the reply, collapsed, added after every earlier block.
pub proof fn law_turn_end_shows_reply(
    av: AppView,
    s: Seq<BlockView>,
    reply: Seq<char>,
    duration_ms: u64,
    av2: AppView,
    s2: Seq<BlockView>,
    fx: Seq<Effect>,
)
    requires
        reply.len() > 0,
        event_step(av, s, EventView::AgentEnd { reply: reply, duration_ms: duration_ms }, av2, s2, fx),
    ensures
        s2.len() > 0,
        s2.last() is Response,
        (s.len() == 0 || s.last() is User || s.last() is Steer || s.last() is Info || s.last() is ToolCall
            || s.last() is Approval || s.last() is Reasoning) ==> s2 == s.push(BlockView::Response { text: reply, expanded: false }),
{
}

// ── Answering an approval prompt ────────────────────────────────────────────

/// Answering the approval prompt at `i` sets its resolution and nothing
/// else: approved whenever the user approved (whatever the message),
/// redirected with the message when the user declined with a non-empty
/// message, denied when the user declined without one. Every other block,
/// and the prompt's tool, arguments and risk, stay as they were.
pub proof fn law_approval_answer_recorded(
    s: Seq<BlockView>,
    i: int,
    approved: bool,
    message: Option<Seq<char>>,
)
    requires
        0 <= i < s.len(),
        s[i] is Approval,
    ensures
        ({
            let t = with_resolution(s, i, answer_resolution(approved, message));
            &&& t.len() == s.len()
            &&& forall|j: int| 0 <= j < s.len() && j != i ==> t[j] == s[j]
            &&& t[i] matches BlockView::Approval { tool, arguments, risk, resolution }
                && tool == s[i]->tool && arguments == s[i]->arguments && risk == s[i]->risk
                && (approved ==> resolution == ResolutionView::Approved)
                && (!approved && message is Some && message->0.len() > 0
                    ==> resolution == ResolutionView::Redirected(message->0))
                && (!approved && (message is None || message->0.len() == 0)
                    ==> resolution == ResolutionView::Denied)
        }),
{
}

// ── Drawing the other blocks ────────────────────────────────────────────────

/// User, steering and info blocks are drawn with their own templates and
/// their text whole; an approval prompt shows its tool, arguments and risk,
/// the approve/deny/redirect controls exactly while it is pending, and once
/// answered a line saying how; a finished response shows its text whole when
/// expanded or short, else its first 4000 characters and a count of the rest,
/// with the expand button exactly when it is longer than that; reasoning is
/// headed "? thought · <seconds>" when finished and "? thinking" while
/// streaming, and streaming text shows its last 4000 characters.
pub proof fn law_blocks_drawn(b: BlockView)
    ensures
        ({
            let r = rendered(b);
            &&& b matches BlockView::User(t) ==> r.template == Template::User && r.body == Some(t) && r.head is None
            &&& b matches BlockView::Steer(t) ==> r.template == Template::Steer && r.body == Some(t) && r.head is None
            &&& b matches BlockView::Info(t) ==> r.template == Template::Info && r.body == Some(t) && r.head is None
            &&& (b is User || b is Steer || b is Info) ==> !r.show_actions && r.toggle is None && r.output is None
            &&& b matches BlockView::Approval { tool, arguments, risk, resolution } ==> {
                &&& r.template == Template::Approval
                &&& r.head == Some(tool + " "@ + arguments + " ("@ + risk + ")"@)
                &&& r.show_actions == (resolution is Pending)
                &&& resolution is Pending ==> r.resolved is None
                &&& resolution is Approved ==> r.resolved == Some("\u{2713} approved"@)
                &&& resolution is Denied ==> r.resolved == Some("\u{2717} denied"@)
                &&& resolution matches ResolutionView::Redirected(m) ==> r.resolved == Some("\u{21aa} redirected: "@ + m)
            }
            &&& b matches BlockView::Response { text, expanded } ==> {
                &&& r.template == Template::Response
                &&& (expanded || text.len() <= 4000) ==> r.body == Some(text)
                &&& (!expanded && text.len() > 4000) ==> r.body == Some(
                    text.take(4000) + "\n\u{2026} ("@ + decimal((text.len() - 4000) as nat) + " more chars)"@,
                )
                &&& text.len() <= 4000 ==> r.toggle is None
                &&& text.len() > 4000 ==> r.toggle == Some(if expanded { "Collapse"@ } else { "Expand"@ })
                &&& !r.show_actions
            }
            &&& b matches BlockView::Reasoning { text, elapsed_secs } ==> r.template == Template::Thought
                && r.head == Some("? thought \u{00b7} "@ + elapsed_secs) && r.body == Some(capped_head(text, 4000))
            &&& b matches BlockView::ReasoningStreaming { text } ==> r.template == Template::Thought
                && r.head == Some("? thinking"@) && r.body == Some(capped_tail(text, 4000))
            &&& b matches BlockView::ResponseStreaming(t) ==> r.template == Template::ResponseStreaming
                && r.body == Some(capped_tail(t, 4000))
        }),
{
    assert(RESPONSE_CAP == 4000);
}

// ── Menu buttons ────────────────────────────────────────────────────────────

/// A button that needs the agent does nothing but say "not connected." when
/// none is running, and ends the batch.
pub proof fn law_buttons_need_agent(av: AppView, s: Seq<BlockView>, b: MenuButton)
    requires
        b == MenuButton::Stats || b == MenuButton::Context || b == MenuButton::Providers
            || b == MenuButton::Reload || b == MenuButton::Session || b == MenuButton::Resume
            || b == MenuButton::Extensions,
    ensures
        press_step(av, s, b, false) == (av, finalized_response(s).push(BlockView::Info("not connected."@)), seq![Effect::TailAndRedraw], true),
{
}

/// With the agent running, each request button makes its request: Stats and
/// Context ask for the session statistics and remember which modal to open,
/// Providers, Extensions and Reload ask for their lists (Reload also saying
/// so), Session and Resume ask for the sessions, Resume remembering to resume
/// the newest.
pub proof fn law_buttons_make_requests(av: AppView, s: Seq<BlockView>)
    ensures
        press_step(av, s, MenuButton::Stats, true)
            == (AppView { stats_requested: true, ..av }, s, seq![Effect::Call(AgentCall::GetSessionStats)], true),
        press_step(av, s, MenuButton::Context, true)
            == (AppView { context_modal_requested: true, ..av }, s, seq![Effect::Call(AgentCall::GetSessionStats)], true),
        press_step(av, s, MenuButton::Providers, true) == (av, s, seq![Effect::Call(AgentCall::ListProviders)], true),
        press_step(av, s, MenuButton::Extensions, true) == (av, s, seq![Effect::Call(AgentCall::ListExtensions)], true),
        press_step(av, s, MenuButton::Reload, true) == (
            av,
            finalized_response(s).push(BlockView::Info("Reloading extensions\u{2026}"@)),
            seq![Effect::Call(AgentCall::ReloadExtensions), Effect::TailAndRedraw],
            true,
        ),
        press_step(av, s, MenuButton::Session, true)
            == (AppView { resume_latest_requested: false, ..av }, s, seq![Effect::Call(AgentCall::ListSessions)], true),
        press_step(av, s, MenuButton::Resume, true)
            == (AppView { resume_latest_requested: true, ..av }, s, seq![Effect::Call(AgentCall::ListSessions)], true),
{
}

/// Quit quits; Help opens the help; each close button closes its own modal;
/// the context modal's buttons close it and, with an agent, compact, clear
/// or start a new session. None of these changes the state or scrollback.
pub proof fn law_modal_buttons(av: AppView, s: Seq<BlockView>, c: bool)
    ensures
        press_step(av, s, MenuButton::Quit, c) == (av, s, seq![Effect::Quit], true),
        press_step(av, s, MenuButton::Help, c) == (av, s, seq![Effect::OpenModal(Modal::Help)], false),
        press_step(av, s, MenuButton::HelpClose, c) == (av, s, seq![Effect::CloseModal(Modal::Help)], false),
        press_step(av, s, MenuButton::StatsClose, c) == (av, s, seq![Effect::CloseModal(Modal::Stats)], false),
        press_step(av, s, MenuButton::ModelClose, c) == (av, s, seq![Effect::CloseModal(Modal::Model)], false),
        press_step(av, s, MenuButton::SessionClose, c) == (av, s, seq![Effect::CloseModal(Modal::Session)], false),
        press_step(av, s, MenuButton::ProviderClose, c) == (av, s, seq![Effect::CloseModal(Modal::Provider)], false),
        press_step(av, s, MenuButton::ExtensionsClose, c) == (av, s, seq![Effect::CloseModal(Modal::Extensions)], false),
        press_step(av, s, MenuButton::ContextClose, c) == (av, s, seq![Effect::CloseModal(Modal::Context)], false),
        press_step(av, s, MenuButton::ContextCompact, true)
            == (av, s, seq![Effect::CloseModal(Modal::Context), Effect::Call(AgentCall::Compact)], false),
        press_step(av, s, MenuButton::ContextClear, true)
            == (av, s, seq![Effect::CloseModal(Modal::Context), Effect::Call(AgentCall::Clear)], false),
        press_step(av, s, MenuButton::ContextNewSession, true)
            == (av, s, seq![Effect::CloseModal(Modal::Context), Effect::Call(AgentCall::NewSession)], false),
        press_step(av, s, MenuButton::ContextCompact, false) == (av, s, seq![Effect::CloseModal(Modal::Context)], false),
{
    assert(seq![Effect::CloseModal(Modal::Context)] + seq![Effect::Call(AgentCall::Compact)]
        =~= seq![Effect::CloseModal(Modal::Context), Effect::Call(AgentCall::Compact)]);
    assert(seq![Effect::CloseModal(Modal::Context)] + seq![Effect::Call(AgentCall::Clear)]
        =~= seq![Effect::CloseModal(Modal::Context), Effect::Call(AgentCall::Clear)]);
    assert(seq![Effect::CloseModal(Modal::Context)] + seq![Effect::Call(AgentCall::NewSession)]
        =~= seq![Effect::CloseModal(Modal::Context), Effect::Call(AgentCall::NewSession)]);
    assert(seq![Effect::CloseModal(Modal::Context)] + Seq::<Effect>::empty() =~= seq![Effect::CloseModal(Modal::Context)]);
}

/// Abort with no turn running only says "nothing to abort."; during a turn
/// it asks the agent to abort and shows "aborting". Restart ends the turn,
/// says so, drops the agent and spawns a new one.
pub proof fn law_abort_and_restart(av: AppView, s: Seq<BlockView>, c: bool)
    ensures
        !av.busy ==> press_step(av, s, MenuButton::Abort, c)
            == (av, finalized_response(s).push(BlockView::Info("nothing to abort."@)), seq![Effect::TailAndRedraw], true),
        av.busy ==> press_step(av, s, MenuButton::Abort, true)
            == (AppView { working_state: "aborting"@, ..av }, s, seq![Effect::Call(AgentCall::Abort), Effect::TickWorking], true),
        ({
            let (av2, s2, fx, stop) = press_step(av, s, MenuButton::Restart, c);
            &&& !av2.busy && av2.steer_count == 0
            &&& s2 == finalized_response(s).push(BlockView::Info("Restarting rho\u{2026}"@))
            &&& fx[0] == Effect::DropAgent
            &&& fx.last() == (Effect::SpawnAgent { restart: true })
            &&& stop
        }),
{
}

// ── Submitting a message ────────────────────────────────────────────────────

/// A submitted message is added as the user's message when no turn is
/// running and as a steering message during one (counting one more steer),
/// is sent to the agent (marked as steering exactly during a turn) when one
/// is connected, and is followed by a notice when none is; the input is
/// cleared first and focused last.
pub proof fn law_submit_message(av: AppView, s: Seq<BlockView>, text: String, connected: bool)
    requires
        av.busy ==> av.steer_count < u32::MAX,
    ensures
        ({
            let s2 = submitted_scrollback(s, av.busy, text@, connected);
            let av2 = submitted(av);
            let fx = submit_effects(av, text, connected);
            &&& s2[s.len() as int] == (if av.busy { BlockView::Steer(text@) } else { BlockView::User(text@) })
            &&& s2.take(s.len() as int) == s
            &&& connected ==> s2.len() == s.len() + 1
            &&& !connected ==> s2.len() == s.len() + 2 && s2.last() == BlockView::Info("\u{26a0} rho agent not connected."@)
            &&& av.busy ==> av2.steer_count == av.steer_count + 1 && av2.working_state == "steered"@
            &&& !av.busy ==> av2 == av
            &&& fx[0] == Effect::ClearInput
            &&& fx.last() == Effect::FocusInput
            &&& connected ==> fx.contains(Effect::Call(AgentCall::Prompt { text: text, steer: av.busy }))
            &&& !connected ==> forall|k: int| 0 <= k < fx.len() ==> !(#[trigger] fx[k] is Call)
        }),
{
    let s2 = submitted_scrollback(s, av.busy, text@, connected);
    assert(s2.take(s.len() as int) =~= s);
    let fx = submit_effects(av, text, connected);
    let steer_fx: Seq<Effect> = if av.busy { seq![Effect::TickWorking, Effect::SteerPlaceholder] } else { Seq::empty() };
    let call_fx: Seq<Effect> = if connected { seq![Effect::Call(AgentCall::Prompt { text: text, steer: av.busy })] } else { Seq::empty() };
    assert(fx == seq![Effect::ClearInput] + steer_fx + call_fx + seq![Effect::TailAndRedraw, Effect::FocusInput]);
    let n = fx.len();
    assert(n == 3 + steer_fx.len() + call_fx.len());
    assert(fx[0] == Effect::ClearInput);
    assert(fx[n - 1] == Effect::FocusInput);
    assert(fx.last() == Effect::FocusInput);
    if connected {
        assert(fx[1 + steer_fx.len() as int] == Effect::Call(AgentCall::Prompt { text: text, steer: av.busy }));
        assert(fx.contains(Effect::Call(AgentCall::Prompt { text: text, steer: av.busy })));
    } else {
        assert forall|k: int| 0 <= k < fx.len() implies !(#[trigger] fx[k] is Call) by {
            if k == 0 {
            } else if k < 1 + steer_fx.len() {
                assert(fx[k] == steer_fx[k - 1]);
            } else {
                assert(fx[k] == seq![Effect::TailAndRedraw, Effect::FocusInput][k - 1 - steer_fx.len()]);
            }
        }
    }
    if av.busy {
        assert(s2[s.len() as int] == BlockView::Steer(text@));
    } else {
        assert(s2[s.len() as int] == BlockView::User(text@));
    }
}

/// Picking the current model only closes the picker; picking another asks
/// the agent to switch to it.
pub proof fn law_pick_model(current: Option<Seq<char>>, model: String)
    ensures
        current == Some(model@) ==> picked_model_effects(current, model) == seq![Effect::CloseModal(Modal::Model)],
        current != Some(model@) ==> picked_model_effects(current, model)
            == seq![Effect::CloseModal(Modal::Model), Effect::Call(AgentCall::SetModel(model))],
{
    assert(seq![Effect::CloseModal(Modal::Model)] + Seq::<Effect>::empty() =~= seq![Effect::CloseModal(Modal::Model)]);
    assert(seq![Effect::CloseModal(Modal::Model)] + seq![Effect::Call(AgentCall::SetModel(model))]
        =~= seq![Effect::CloseModal(Modal::Model), Effect::Call(AgentCall::SetModel(model))]);
}

// ── Other answers and events ────────────────────────────────────────────────

/// The answer to `setModel` makes its `model` the current one, shows it in
/// the footer and announces "→ model: <model>"; when it carries a context
/// window, the footer's context figures come from it, else the statistics
/// are asked for again.
pub proof fn law_set_model_answer(
    av: AppView,
    s: Seq<BlockView>,
    result: Json,
    av2: AppView,
    s2: Seq<BlockView>,
    fx: Seq<Effect>,
)
    requires
        response_step(av, s, RequestKind::SetModel, result, av2, s2, fx),
    ensures
        ({
            let model = field_str(Some(result), "model"@);
            &&& av2.current_model == Some(model)
            &&& av2.footer_model == model
            &&& s2 == finalized_response(s).push(BlockView::Info("\u{2192} model: "@ + model))
            &&& av2.usage.input == av.usage.input && av2.usage.output == av.usage.output
            &&& json_get(result, "contextWindow"@) is Some ==> av2.usage.ctx_window == field_u64(Some(result), "contextWindow"@)
                && av2.usage.ctx_used == field_u64(Some(result), "estimatedUsed"@)
                && fx.last() == Effect::UpdateUsage
            &&& json_get(result, "contextWindow"@) is None ==> av2.usage == av.usage
                && fx.last() == Effect::Call(AgentCall::GetSessionStats)
        }),
{
}

/// An empty provider or session list is reported in the scrollback instead
/// of opening a picker; clearing the conversation or starting a new session
/// leaves only the notice of it.
pub proof fn law_empty_lists_and_resets(
    av: AppView,
    s: Seq<BlockView>,
    result: Json,
    kind: RequestKind,
    av2: AppView,
    s2: Seq<BlockView>,
    fx: Seq<Effect>,
)
    requires
        response_step(av, s, kind, result, av2, s2, fx),
    ensures
        kind == RequestKind::ListProviders && json_get(result, "providers"@) is None
            ==> av2 == av && s2 == finalized_response(s).push(BlockView::Info("No providers configured."@)),
        kind == RequestKind::ListSessions && json_get(result, "sessions"@) is None
            ==> av2 == av && s2 == finalized_response(s).push(BlockView::Info("No previous sessions."@)),
        kind == RequestKind::Clear ==> s2 == seq![BlockView::Info("\u{2713} conversation cleared"@)]
            && fx.contains(Effect::Call(AgentCall::GetSessionStats)),
        kind == RequestKind::NewSession ==> s2 == seq![BlockView::Info("\u{2713} new session"@)]
            && fx.contains(Effect::Call(AgentCall::GetSessionStats)),
{
    if kind == RequestKind::Clear || kind == RequestKind::NewSession {
        assert(fx[1] == Effect::Call(AgentCall::GetSessionStats));
    }
}

/// "ready" announces the connection and asks for the state, the models and
/// the statistics; the start of a turn makes the window busy; an agent
/// error or a failed request is reported in the scrollback; the process
/// exiting is reported and the agent dropped.
pub proof fn law_agent_events(
    av: AppView,
    s: Seq<BlockView>,
    ev: EventView,
    av2: AppView,
    s2: Seq<BlockView>,
    fx: Seq<Effect>,
)
    requires
        event_step(av, s, ev, av2, s2, fx),
    ensures
        ev is Ready ==> av2 == av && s2 == finalized_response(s).push(BlockView::Info("\u{2713} Connected to rho"@))
            && fx.contains(Effect::Call(AgentCall::GetState)) && fx.contains(Effect::Call(AgentCall::ListModels))
            && fx.contains(Effect::Call(AgentCall::GetSessionStats)),
        ev is AgentStart ==> av2.busy && av2.working_state.len() == 0 && s2 == s && fx == seq![Effect::StartWorking],
        ev matches EventView::AgentError { error } ==> s2 == finalized_response(s).push(BlockView::Info("\u{26a0} "@ + error)),
        ev matches EventView::RequestError { kind, error } ==> av2 == av
            && s2.len() == finalized_response(s).len() + 1 && s2.last() is Info,
        ev is Closed ==> s2 == finalized_response(s).push(BlockView::Info("rho process exited."@))
            && fx.contains(Effect::DropAgent),
        ev matches EventView::MessageDelta { delta } ==> av2.stream_dirty && fx.len() == 0,
{
    if ev is Ready {
        assert(fx[1] == Effect::Call(AgentCall::GetState));
        assert(fx[2] == Effect::Call(AgentCall::ListModels));
        assert(fx[3] == Effect::Call(AgentCall::GetSessionStats));
    }
    if ev is Closed {
        assert(fx[1] == Effect::DropAgent);
    }
}

// ── Decoding messages ───────────────────────────────────────────────────────

/// A notification is read by its string `method`, each field of the event
/// taken from the `params` member of the same name: `agent/end` gives the
/// reply and `durationMs`, `agent/error` the error, the two delta methods
/// their `delta`, `state/change` the state, `tool/call` the name and
/// arguments, `tool/result` the name, `isError` and output, `tool/denied`
/// the name, `approval/request` the tool, arguments and risk, and `usage`
/// the token counts and cost from `params.usage` and the context figures
/// from `params.context`, the utilization capped at 255.
pub proof fn law_notification_fields(v: Json, m: Seq<char>)
    requires
        json_get(v, "method"@) matches Some(Json::Str(t)) && t@ == m,
    ensures
        ({
            let p = json_get(v, "params"@);
            let e = notification_event(v);
            &&& m == "ready"@ ==> e == Some(EventView::Ready)
            &&& m == "agent/start"@ ==> e == Some(EventView::AgentStart)
            &&& m == "agent/end"@ ==> e == Some(EventView::AgentEnd {
                reply: field_str(p, "reply"@), duration_ms: field_u64(p, "durationMs"@) })
            &&& m == "agent/error"@ ==> e == Some(EventView::AgentError { error: field_str(p, "error"@) })
            &&& m == "message/delta"@ ==> e == Some(EventView::MessageDelta { delta: field_str(p, "delta"@) })
            &&& m == "reasoning/delta"@ ==> e == Some(EventView::ReasoningDelta { delta: field_str(p, "delta"@) })
            &&& m == "state/change"@ ==> e == Some(EventView::StateChange { state: field_str(p, "state"@) })
            &&& m == "tool/call"@ ==> e == Some(EventView::ToolCall {
                name: field_str(p, "name"@), arguments: field_str(p, "arguments"@) })
            &&& m == "tool/result"@ ==> e == Some(EventView::ToolResult {
                name: field_str(p, "name"@), is_error: field_bool(p, "isError"@), output: field_str(p, "output"@) })
            &&& m == "tool/denied"@ ==> e == Some(EventView::ToolDenied { name: field_str(p, "name"@) })
            &&& m == "approval/request"@ ==> e == Some(EventView::ApprovalRequest {
                tool: field_str(p, "tool"@), arguments: field_str(p, "arguments"@), risk: field_str(p, "risk"@) })
            &&& m == "usage"@ ==> {
                let u = opt_get(p, "usage"@);
                let c = opt_get(p, "context"@);
                let util = field_u64(c, "utilizationPercent"@);
                &&& e matches Some(EventView::Usage { input_tokens, output_tokens, cached_tokens, cost, context_used, context_window, utilization })
                    && input_tokens == field_u64(u, "inputTokens"@)
                    && output_tokens == field_u64(u, "outputTokens"@)
                    && cached_tokens == field_u64(u, "cachedTokens"@)
                    && cost == field_number(u, "cost"@)
                    && context_used == field_u64(c, "estimatedUsed"@)
                    && context_window == field_u64(c, "contextWindow"@)
                    && (util <= 255 ==> utilization == util)
                    && (util > 255 ==> utilization == 255)
            }
        }),
{
    reveal_strlit("ready");
    reveal_strlit("agent/start");
    reveal_strlit("agent/end");
    reveal_strlit("agent/error");
    reveal_strlit("message/delta");
    reveal_strlit("reasoning/delta");
    reveal_strlit("state/change");
    reveal_strlit("tool/call");
    reveal_strlit("tool/result");
    reveal_strlit("tool/denied");
    reveal_strlit("approval/request");
    reveal_strlit("usage");
    assert("agent/start"@.len() == 11 && "ready"@.len() == 5);
    assert("agent/start"@ != "ready"@);
    assert("agent/end"@.len() == 9 && "ready"@.len() == 5);
    assert("agent/end"@ != "ready"@);
    assert("agent/end"@.len() == 9 && "agent/start"@.len() == 11);
    assert("agent/end"@ != "agent/start"@);
    assert("agent/error"@.len() == 11 && "ready"@.len() == 5);
    assert("agent/error"@ != "ready"@);
    assert("agent/error"@.len() == 11 && "agent/end"@.len() == 9);
    assert("agent/error"@ != "agent/end"@);
    assert("message/delta"@.len() == 13 && "ready"@.len() == 5);
    assert("message/delta"@ != "ready"@);
    assert("message/delta"@.len() == 13 && "agent/start"@.len() == 11);
    assert("message/delta"@ != "agent/start"@);
    assert("message/delta"@.len() == 13 && "agent/end"@.len() == 9);
    assert("message/delta"@ != "agent/end"@);
    assert("message/delta"@.len() == 13 && "agent/error"@.len() == 11);
    assert("message/delta"@ != "agent/error"@);
    assert("reasoning/delta"@.len() == 15 && "ready"@.len() == 5);
    assert("reasoning/delta"@ != "ready"@);
    assert("reasoning/delta"@.len() == 15 && "agent/start"@.len() == 11);
    assert("reasoning/delta"@ != "agent/start"@);
    assert("reasoning/delta"@.len() == 15 && "agent/end"@.len() == 9);
    assert("reasoning/delta"@ != "agent/end"@);
    assert("reasoning/delta"@.len() == 15 && "agent/error"@.len() == 11);
    assert("reasoning/delta"@ != "agent/error"@);
    assert("reasoning/delta"@.len() == 15 && "message/delta"@.len() == 13);
    assert("reasoning/delta"@ != "message/delta"@);
    assert("state/change"@.len() == 12 && "ready"@.len() == 5);
    assert("state/change"@ != "ready"@);
    assert("state/change"@.len() == 12 && "agent/start"@.len() == 11);
    assert("state/change"@ != "agent/start"@);
    assert("state/change"@.len() == 12 && "agent/end"@.len() == 9);
    assert("state/change"@ != "agent/end"@);
    assert("state/change"@.len() == 12 && "agent/error"@.len() == 11);
    assert("state/change"@ != "agent/error"@);
    assert("state/change"@.len() == 12 && "message/delta"@.len() == 13);
    assert("state/change"@ != "message/delta"@);
    assert("state/change"@.len() == 12 && "reasoning/delta"@.len() == 15);
    assert("state/change"@ != "reasoning/delta"@);
    assert("tool/call"@.len() == 9 && "ready"@.len() == 5);
    assert("tool/call"@ != "ready"@);
    assert("tool/call"@.len() == 9 && "agent/start"@.len() == 11);
    assert("tool/call"@ != "agent/start"@);
    assert("tool/call"@.len() == 9 && "agent/error"@.len() == 11);
    assert("tool/call"@ != "agent/error"@);
    assert("tool/call"@.len() == 9 && "message/delta"@.len() == 13);
    assert("tool/call"@ != "message/delta"@);
    assert("tool/call"@.len() == 9 && "reasoning/delta"@.len() == 15);
    assert("tool/call"@ != "reasoning/delta"@);
    assert("tool/call"@.len() == 9 && "state/change"@.len() == 12);
    assert("tool/call"@ != "state/change"@);
    assert("tool/result"@.len() == 11 && "ready"@.len() == 5);
    assert("tool/result"@ != "ready"@);
    assert("tool/result"@.len() == 11 && "agent/end"@.len() == 9);
    assert("tool/result"@ != "agent/end"@);
    assert("tool/result"@.len() == 11 && "message/delta"@.len() == 13);
    assert("tool/result"@ != "message/delta"@);
    assert("tool/result"@.len() == 11 && "reasoning/delta"@.len() == 15);
    assert("tool/result"@ != "reasoning/delta"@);
    assert("tool/result"@.len() == 11 && "state/change"@.len() == 12);
    assert("tool/result"@ != "state/change"@);
    assert("tool/result"@.len() == 11 && "tool/call"@.len() == 9);
    assert("tool/result"@ != "tool/call"@);
    assert("tool/denied"@.len() == 11 && "ready"@.len() == 5);
    assert("tool/denied"@ != "ready"@);
    assert("tool/denied"@.len() == 11 && "agent/end"@.len() == 9);
    assert("tool/denied"@ != "agent/end"@);
    assert("tool/denied"@.len() == 11 && "message/delta"@.len() == 13);
    assert("tool/denied"@ != "message/delta"@);
    assert("tool/denied"@.len() == 11 && "reasoning/delta"@.len() == 15);
    assert("tool/denied"@ != "reasoning/delta"@);
    assert("tool/denied"@.len() == 11 && "state/change"@.len() == 12);
    assert("tool/denied"@ != "state/change"@);
    assert("tool/denied"@.len() == 11 && "tool/call"@.len() == 9);
    assert("tool/denied"@ != "tool/call"@);
    assert("approval/request"@.len() == 16 && "ready"@.len() == 5);
    assert("approval/request"@ != "ready"@);
    assert("approval/request"@.len() == 16 && "agent/start"@.len() == 11);
    assert("approval/request"@ != "agent/start"@);
    assert("approval/request"@.len() == 16 && "agent/end"@.len() == 9);
    assert("approval/request"@ != "agent/end"@);
    assert("approval/request"@.len() == 16 && "agent/error"@.len() == 11);
    assert("approval/request"@ != "agent/error"@);
    assert("approval/request"@.len() == 16 && "message/delta"@.len() == 13);
    assert("approval/request"@ != "message/delta"@);
    assert("approval/request"@.len() == 16 && "reasoning/delta"@.len() == 15);
    assert("approval/request"@ != "reasoning/delta"@);
    assert("approval/request"@.len() == 16 && "state/change"@.len() == 12);
    assert("approval/request"@ != "state/change"@);
    assert("approval/request"@.len() == 16 && "tool/call"@.len() == 9);
    assert("approval/request"@ != "tool/call"@);
    assert("approval/request"@.len() == 16 && "tool/result"@.len() == 11);
    assert("approval/request"@ != "tool/result"@);
    assert("approval/request"@.len() == 16 && "tool/denied"@.len() == 11);
    assert("approval/request"@ != "tool/denied"@);
    assert("usage"@.len() == 5 && "agent/start"@.len() == 11);
    assert("usage"@ != "agent/start"@);
    assert("usage"@.len() == 5 && "agent/end"@.len() == 9);
    assert("usage"@ != "agent/end"@);
    assert("usage"@.len() == 5 && "agent/error"@.len() == 11);
    assert("usage"@ != "agent/error"@);
    assert("usage"@.len() == 5 && "message/delta"@.len() == 13);
    assert("usage"@ != "message/delta"@);
    assert("usage"@.len() == 5 && "reasoning/delta"@.len() == 15);
    assert("usage"@ != "reasoning/delta"@);
    assert("usage"@.len() == 5 && "state/change"@.len() == 12);
    assert("usage"@ != "state/change"@);
    assert("usage"@.len() == 5 && "tool/call"@.len() == 9);
    assert("usage"@ != "tool/call"@);
    assert("usage"@.len() == 5 && "tool/result"@.len() == 11);
    assert("usage"@ != "tool/result"@);
    assert("usage"@.len() == 5 && "tool/denied"@.len() == 11);
    assert("usage"@ != "tool/denied"@);
    assert("usage"@.len() == 5 && "approval/request"@.len() == 16);
    assert("usage"@ != "approval/request"@);
    assert("agent/error"@[6] != "agent/start"@[6]);
    assert("agent/error"@ != "agent/start"@);
    assert("tool/call"@[0] != "agent/end"@[0]);
    assert("tool/call"@ != "agent/end"@);
    assert("tool/result"@[0] != "agent/start"@[0]);
    assert("tool/result"@ != "agent/start"@);
    assert("tool/result"@[0] != "agent/error"@[0]);
    assert("tool/result"@ != "agent/error"@);
    assert("tool/denied"@[0] != "agent/start"@[0]);
    assert("tool/denied"@ != "agent/start"@);
    assert("tool/denied"@[0] != "agent/error"@[0]);
    assert("tool/denied"@ != "agent/error"@);
    assert("tool/denied"@[5] != "tool/result"@[5]);
    assert("tool/denied"@ != "tool/result"@);
    assert("usage"@[0] != "ready"@[0]);
    assert("usage"@ != "ready"@);
    let p = json_get(v, "params"@);
    let e = notification_event(v);
    if m == "usage"@ {
        let u = opt_get(p, "usage"@);
        let c = opt_get(p, "context"@);
        let util = field_u64(c, "utilizationPercent"@);
        assert(e == Some(EventView::Usage {
            input_tokens: field_u64(u, "inputTokens"@),
            output_tokens: field_u64(u, "outputTokens"@),
            cached_tokens: field_u64(u, "cachedTokens"@),
            cost: field_number(u, "cost"@),
            context_used: field_u64(c, "estimatedUsed"@),
            context_window: field_u64(c, "contextWindow"@),
            utilization: clamp_u8(util),
        }));
        assert(util > 255 ==> clamp_u8(util) == 255);
        assert(util <= 255 ==> clamp_u8(util) == util);
    }
}

/// An answer to an awaited request is reported as that request's kind: as a
/// failure carrying `error.message` ("request failed" without one) when it
/// has an `error`, else as a response carrying its `result` (null without
/// one); the request is then no longer awaited. An answer to an id nobody
/// awaits is dropped and changes nothing.
pub proof fn law_answers_reported_by_kind(
    before: Map<u64, RequestKind>,
    after: Map<u64, RequestKind>,
    v: Json,
    r: Option<EventView>,
    id: u64,
)
    requires
        accepted(before, after, v, r),
        message_id(v) == Some(id),
    ensures
        before.contains_key(id) ==> !after.contains_key(id) && after == before.remove(id),
        before.contains_key(id) && json_get(v, "error"@) is Some ==> (r matches Some(EventView::RequestError { kind, error })
            && kind == before[id]
            && (opt_get(json_get(v, "error"@), "message"@) matches Some(Json::Str(t)) ==> error == t@)
            && (!(opt_get(json_get(v, "error"@), "message"@) is Some && opt_get(json_get(v, "error"@), "message"@)->0 is Str)
                ==> error == "request failed"@)),
        before.contains_key(id) && json_get(v, "error"@) is None ==> (r matches Some(EventView::Response { kind, result })
            && kind == before[id]
            && (json_get(v, "result"@) matches Some(x) ==> result == x)
            && (json_get(v, "result"@) is None ==> result == Json::Null)),
        !before.contains_key(id) ==> r is None && after == before,
{
}

} // verus!
