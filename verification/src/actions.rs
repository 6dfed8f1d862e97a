use vstd::prelude::*;
use crate::chat::model::{ApprovalResolution, BlockView, ChatBlock, ResolutionView};
use crate::chat::store::{ChatStore, with_resolution, toggled};
use crate::controller::{AgentCall, AppState, AppView, Effect, Modal, pushed_info, stopped, push_info, opt_text, effects1, effects2, effects3, effects4, joined};
use crate::entries::{ModelEntry, ModelEntryView, model_views, filter_models, filtered_model_views};
use crate::text::{same_text, decimal, push_decimal, push_char};
use crate::entries::{ModelChoice, ModelView};
use crate::stats::{footer_count, push_footer_count};
use crate::controller::Usage;

verus! {

/// A button of the menu bar or of a modal.
#[derive(Clone, Copy, Debug, PartialEq, Eq, Structural)]
pub enum MenuButton {
    Quit,
    Stats,
    Context,
    StatsClose,
    Help,
    HelpClose,
    ModelClose,
    SessionClose,
    ProviderClose,
    ExtensionsClose,
    ContextClose,
    ContextCompact,
    ContextClear,
    ContextNewSession,
    Providers,
    Reload,
    Restart,
    Abort,
    Session,
    Resume,
    Extensions,
}

/// What pressing a button does: the new state, scrollback and effects, and
/// whether the press ends the handling of this batch of actions.
pub open spec fn press_step(av: AppView, s: Seq<BlockView>, b: MenuButton, connected: bool) -> (AppView, Seq<BlockView>, Seq<Effect>, bool) {
    let not_connected = (av, pushed_info(s, "not connected."@), seq![Effect::TailAndRedraw], true);
    match b {
        MenuButton::Quit => (av, s, seq![Effect::Quit], true),
        MenuButton::Stats => if connected {
            (AppView { stats_requested: true, ..av }, s, seq![Effect::Call(AgentCall::GetSessionStats)], true)
        } else {
            not_connected
        },
        MenuButton::Context => if connected {
            (AppView { context_modal_requested: true, ..av }, s, seq![Effect::Call(AgentCall::GetSessionStats)], true)
        } else {
            not_connected
        },
        MenuButton::StatsClose => (av, s, seq![Effect::CloseModal(Modal::Stats)], false),
        MenuButton::Help => (av, s, seq![Effect::OpenModal(Modal::Help)], false),
        MenuButton::HelpClose => (av, s, seq![Effect::CloseModal(Modal::Help)], false),
        MenuButton::ModelClose => (av, s, seq![Effect::CloseModal(Modal::Model)], false),
        MenuButton::SessionClose => (av, s, seq![Effect::CloseModal(Modal::Session)], false),
        MenuButton::ProviderClose => (av, s, seq![Effect::CloseModal(Modal::Provider)], false),
        MenuButton::ExtensionsClose => (av, s, seq![Effect::CloseModal(Modal::Extensions)], false),
        MenuButton::ContextClose => (av, s, seq![Effect::CloseModal(Modal::Context)], false),
        MenuButton::ContextCompact => (av, s, seq![Effect::CloseModal(Modal::Context)]
            + (if connected { seq![Effect::Call(AgentCall::Compact)] } else { Seq::empty() }), false),
        MenuButton::ContextClear => (av, s, seq![Effect::CloseModal(Modal::Context)]
            + (if connected { seq![Effect::Call(AgentCall::Clear)] } else { Seq::empty() }), false),
        MenuButton::ContextNewSession => (av, s, seq![Effect::CloseModal(Modal::Context)]
            + (if connected { seq![Effect::Call(AgentCall::NewSession)] } else { Seq::empty() }), false),
        MenuButton::Providers => if connected {
            (av, s, seq![Effect::Call(AgentCall::ListProviders)], true)
        } else {
            not_connected
        },
        MenuButton::Reload => if connected {
            (av, pushed_info(s, "Reloading extensions\u{2026}"@), seq![Effect::Call(AgentCall::ReloadExtensions), Effect::TailAndRedraw], true)
        } else {
            not_connected
        },
        MenuButton::Restart => (
            stopped(av),
            pushed_info(s, "Restarting rho\u{2026}"@),
            seq![Effect::DropAgent, Effect::StopWorking, Effect::TailAndRedraw, Effect::SpawnAgent { restart: true }],
            true,
        ),
        MenuButton::Abort => if !av.busy {
            (av, pushed_info(s, "nothing to abort."@), seq![Effect::TailAndRedraw], true)
        } else if connected {
            (AppView { working_state: "aborting"@, ..av }, s, seq![Effect::Call(AgentCall::Abort), Effect::TickWorking], true)
        } else {
            (av, s, Seq::empty(), true)
        },
        MenuButton::Session => if connected {
            (AppView { resume_latest_requested: false, ..av }, s, seq![Effect::Call(AgentCall::ListSessions)], true)
        } else {
            not_connected
        },
        MenuButton::Resume => if connected {
            (AppView { resume_latest_requested: true, ..av }, s, seq![Effect::Call(AgentCall::ListSessions)], true)
        } else {
            not_connected
        },
        MenuButton::Extensions => if connected {
            (av, s, seq![Effect::Call(AgentCall::ListExtensions)], true)
        } else {
            not_connected
        },
    }
}

/// The effects `[a]` followed by `[b]` when `cond` holds.
fn effects_then_if(a: Effect, cond: bool, b: Effect) -> (r: Vec<Effect>)
    ensures
        r@ == seq![a] + (if cond { seq![b] } else { Seq::<Effect>::empty() }),
{
    let mut v = effects1(a);
    if cond {
        v.push(b);
        assert(v@ =~= seq![a] + seq![b]);
    } else {
        assert(v@ =~= seq![a] + Seq::<Effect>::empty());
    }
    v
}

impl AppState {
    /// Pushes "not connected." and asks for a redraw.
    fn not_connected(&mut self, store: &mut ChatStore) -> (fx: Vec<Effect>)
        ensures
            final(self)@ == old(self)@,
            final(store)@ == pushed_info(old(store)@, "not connected."@),
            fx@ == seq![Effect::TailAndRedraw],
    {
        push_info(store, String::from_str("not connected."));
        effects1(Effect::TailAndRedraw)
    }

    /// Handle a press of a menu-bar or modal button. `connected` tells
    /// whether an agent is running. Returns the effects and whether the
    /// press ends the handling of this batch of actions.
    pub fn press(&mut self, store: &mut ChatStore, button: MenuButton, connected: bool) -> (r: (Vec<Effect>, bool))
        ensures
            ({
                let (av2, s2, fx, stop) = press_step(old(self)@, old(store)@, button, connected);
                &&& final(self)@ == av2
                &&& final(store)@ == s2
                &&& r.0@ == fx
                &&& r.1 == stop
            }),
    {
        match button {
            MenuButton::Quit => (effects1(Effect::Quit), true),
            MenuButton::Stats => if connected {
                self.stats_requested = true;
                (effects1(Effect::Call(AgentCall::GetSessionStats)), true)
            } else {
                (self.not_connected(store), true)
            },
            MenuButton::Context => if connected {
                self.context_modal_requested = true;
                (effects1(Effect::Call(AgentCall::GetSessionStats)), true)
            } else {
                (self.not_connected(store), true)
            },
            MenuButton::StatsClose => (effects1(Effect::CloseModal(Modal::Stats)), false),
            MenuButton::Help => (effects1(Effect::OpenModal(Modal::Help)), false),
            MenuButton::HelpClose => (effects1(Effect::CloseModal(Modal::Help)), false),
            MenuButton::ModelClose => (effects1(Effect::CloseModal(Modal::Model)), false),
            MenuButton::SessionClose => (effects1(Effect::CloseModal(Modal::Session)), false),
            MenuButton::ProviderClose => (effects1(Effect::CloseModal(Modal::Provider)), false),
            MenuButton::ExtensionsClose => (effects1(Effect::CloseModal(Modal::Extensions)), false),
            MenuButton::ContextClose => (effects1(Effect::CloseModal(Modal::Context)), false),
            MenuButton::ContextCompact => (
                effects_then_if(Effect::CloseModal(Modal::Context), connected, Effect::Call(AgentCall::Compact)),
                false,
            ),
            MenuButton::ContextClear => (
                effects_then_if(Effect::CloseModal(Modal::Context), connected, Effect::Call(AgentCall::Clear)),
                false,
            ),
            MenuButton::ContextNewSession => (
                effects_then_if(Effect::CloseModal(Modal::Context), connected, Effect::Call(AgentCall::NewSession)),
                false,
            ),
            MenuButton::Providers => if connected {
                (effects1(Effect::Call(AgentCall::ListProviders)), true)
            } else {
                (self.not_connected(store), true)
            },
            MenuButton::Reload => if connected {
                push_info(store, String::from_str("Reloading extensions\u{2026}"));
                (effects2(Effect::Call(AgentCall::ReloadExtensions), Effect::TailAndRedraw), true)
            } else {
                (self.not_connected(store), true)
            },
            MenuButton::Restart => {
                self.busy = false;
                self.steer_count = 0;
                push_info(store, String::from_str("Restarting rho\u{2026}"));
                (
                    effects4(Effect::DropAgent, Effect::StopWorking, Effect::TailAndRedraw, Effect::SpawnAgent { restart: true }),
                    true,
                )
            },
            MenuButton::Abort => if !self.busy {
                push_info(store, String::from_str("nothing to abort."));
                (effects1(Effect::TailAndRedraw), true)
            } else if connected {
                self.working_state = String::from_str("aborting");
                (effects2(Effect::Call(AgentCall::Abort), Effect::TickWorking), true)
            } else {
                (Vec::new(), true)
            },
            MenuButton::Session => if connected {
                self.resume_latest_requested = false;
                (effects1(Effect::Call(AgentCall::ListSessions)), true)
            } else {
                (self.not_connected(store), true)
            },
            MenuButton::Resume => if connected {
                self.resume_latest_requested = true;
                (effects1(Effect::Call(AgentCall::ListSessions)), true)
            } else {
                (self.not_connected(store), true)
            },
            MenuButton::Extensions => if connected {
                (effects1(Effect::Call(AgentCall::ListExtensions)), true)
            } else {
                (self.not_connected(store), true)
            },
        }
    }
}

/// The resolution an answer to an approval prompt records: approved, or
/// redirected with a non-empty message, or denied.
pub open spec fn answer_resolution(approved: bool, message: Option<Seq<char>>) -> ResolutionView {
    if approved {
        ResolutionView::Approved
    } else {
        match message {
            Some(m) => if m.len() > 0 { ResolutionView::Redirected(m) } else { ResolutionView::Denied },
            None => ResolutionView::Denied,
        }
    }
}

/// The message sent with an approval answer: the given one when non-empty.
pub open spec fn answer_message(message: Option<String>) -> Option<String> {
    match message {
        Some(m) => if m@.len() > 0 { Some(m) } else { None },
        None => None,
    }
}

/// The info line for a failed start or restart of the agent.
pub open spec fn spawn_failure_text(restart: bool, error: Seq<char>) -> Seq<char> {
    if restart {
        "\u{26a0} Could not restart rho: "@ + error
    } else {
        "\u{26a0} Could not start rho: "@ + error + "\nSet RHO_PATH to the rho binary, or put rho on PATH."@
    }
}

/// The picker rows for the filtered models, the current one marked.
pub open spec fn model_rows(av: AppView) -> Seq<ModelEntryView> {
    av.filtered_models.map_values(|m: ModelView| ModelEntryView {
        id: m.id,
        provider: m.provider,
        is_current: av.current_model == Some(m.id),
    })
}

/// The spinner frames of the working line.
pub open spec fn spinner_frame(i: int) -> char {
    if i == 0 { '\u{280b}' }
    else if i == 1 { '\u{2819}' }
    else if i == 2 { '\u{2839}' }
    else if i == 3 { '\u{2838}' }
    else if i == 4 { '\u{283c}' }
    else if i == 5 { '\u{2834}' }
    else if i == 6 { '\u{2826}' }
    else if i == 7 { '\u{2827}' }
    else if i == 8 { '\u{2807}' }
    else { '\u{280f}' }
}

/// The working line after `elapsed_ms` milliseconds of an agent turn: a
/// spinner frame that advances every 80 ms, the elapsed seconds `secs` as the
/// caller wrote them with one decimal, the agent's state (`thinking` when none
/// was reported) and the number of steering messages sent during the turn.
pub open spec fn working_text(elapsed_ms: u64, secs: Seq<char>, state: Seq<char>, steer_count: u32) -> Seq<char> {
    seq![spinner_frame(((elapsed_ms / 80) % 10) as int)] + " Working  "@ + secs
        + "s  "@ + (if state.len() == 0 { "thinking"@ } else { state })
        + (if steer_count > 0 { "  \u{2197} "@ + decimal(steer_count as nat) + " steered"@ } else { Seq::empty() })
}

/// The usage footer: token counts and the cost (written by the caller with
/// three decimals), then the context use once any was reported.
pub open spec fn footer_text(u: Usage, cost: Seq<char>) -> Seq<char> {
    let base = "\u{2191}"@ + footer_count(u.input) + "    \u{2193}"@ + footer_count(u.output) + "    R"@
        + footer_count(u.cached) + "    $"@ + cost;
    if u.ctx_window == 0 && u.ctx_used == 0 {
        base
    } else {
        base + "    ctx "@ + footer_count(u.ctx_used) + "/"@ + footer_count(u.ctx_window) + " ("@
            + decimal(u.util as nat) + "%)"@
    }
}

/// The spinner frame at position `i`.
fn spinner_char(i: u64) -> (c: char)
    requires
        i < 10,
    ensures
        c == spinner_frame(i as int),
{
    if i == 0 { '\u{280b}' }
    else if i == 1 { '\u{2819}' }
    else if i == 2 { '\u{2839}' }
    else if i == 3 { '\u{2838}' }
    else if i == 4 { '\u{283c}' }
    else if i == 5 { '\u{2834}' }
    else if i == 6 { '\u{2826}' }
    else if i == 7 { '\u{2827}' }
    else if i == 8 { '\u{2807}' }
    else { '\u{280f}' }
}

/// The text of the working line; `secs` is the elapsed time in seconds
/// written with one decimal.
pub fn working_line(elapsed_ms: u64, secs: &str, state: &str, steer_count: u32) -> (r: String)
    ensures
        r@ == working_text(elapsed_ms, secs@, state@, steer_count),
{
    let mut s = String::new();
    push_char(&mut s, spinner_char((elapsed_ms / 80) % 10));
    s.append(" Working  ");
    s.append(secs);
    s.append("s  ");
    if state.is_empty() {
        s.append("thinking");
    } else {
        s.append(state);
    }
    if steer_count > 0 {
        s.append("  \u{2197} ");
        push_decimal(&mut s, steer_count as u64);
        s.append(" steered");
    } else {
        proof { reveal_strlit(""); }
    }
    assert(s@ =~= working_text(elapsed_ms, secs@, state@, steer_count));
    s
}

/// Whether a frame of the working-line animation should refresh the line:
/// while the agent is busy, on the first frame and then once at least 80 ms
/// have passed since the last refresh (`since_tick_ms`).
pub fn frame_is_due(busy: bool, since_tick_ms: Option<u64>) -> (r: bool)
    ensures
        r == (busy && match since_tick_ms {
            Some(ms) => ms >= 80,
            None => true,
        }),
{
    busy && match since_tick_ms {
        Some(ms) => ms >= 80,
        None => true,
    }
}

/// The text of the usage footer; `cost` is the running cost written with
/// three decimals.
pub fn usage_footer(u: &Usage, cost: &str) -> (r: String)
    ensures
        r@ == footer_text(*u, cost@),
{
    let mut s = String::from_str("\u{2191}");
    push_footer_count(&mut s, u.input);
    s.append("    \u{2193}");
    push_footer_count(&mut s, u.output);
    s.append("    R");
    push_footer_count(&mut s, u.cached);
    s.append("    $");
    s.append(cost);
    if !(u.ctx_window == 0 && u.ctx_used == 0) {
        s.append("    ctx ");
        push_footer_count(&mut s, u.ctx_used);
        s.append("/");
        push_footer_count(&mut s, u.ctx_window);
        s.append(" (");
        push_decimal(&mut s, u.util as u64);
        s.append("%)");
    }
    s
}

/// Answers the approval prompt at `index`: records the resolution in the
/// scrollback and returns the effects (the answer to send, then focus and
/// redraw).
pub fn answer_approval(store: &mut ChatStore, index: usize, approved: bool, message: Option<String>) -> (fx: Vec<Effect>)
    ensures
        final(store)@ == with_resolution(old(store)@, index as int, answer_resolution(approved, opt_text(message))),
        fx@ == seq![
            Effect::Call(AgentCall::ApprovalResponse { approved: approved, message: answer_message(message) }),
            Effect::FocusInput,
            Effect::TailAndRedraw,
        ],
{
    let msg = match message {
        Some(m) => if m.as_str().is_empty() { None } else { Some(m) },
        None => None,
    };
    let resolution = if approved {
        ApprovalResolution::Approved
    } else {
        match &msg {
            Some(m) => ApprovalResolution::Redirected(m.clone()),
            None => ApprovalResolution::Denied,
        }
    };
    store.resolve_approval(index, resolution);
    effects3(
        Effect::Call(AgentCall::ApprovalResponse { approved, message: msg }),
        Effect::FocusInput,
        Effect::TailAndRedraw,
    )
}

/// Expands or collapses the block at `index` and redraws.
pub fn toggle_block(store: &mut ChatStore, index: usize) -> (fx: Vec<Effect>)
    ensures
        final(store)@ == toggled(old(store)@, index as int),
        fx@ == seq![Effect::TailAndRedraw],
{
    store.toggle_expand(index);
    effects1(Effect::TailAndRedraw)
}

/// Records that starting (or restarting) the agent failed.
pub fn report_spawn_failure(store: &mut ChatStore, restart: bool, error: &str) -> (fx: Vec<Effect>)
    ensures
        final(store)@ == pushed_info(old(store)@, spawn_failure_text(restart, error@)),
        fx@ == seq![Effect::TailAndRedraw],
{
    if restart {
        push_info(store, joined("\u{26a0} Could not restart rho: ", error));
    } else {
        let mut line = joined("\u{26a0} Could not start rho: ", error);
        line.append("\nSet RHO_PATH to the rho binary, or put rho on PATH.");
        push_info(store, line);
    }
    effects1(Effect::TailAndRedraw)
}

/// Records that a message could not be sent to the agent.
pub fn report_send_failure(store: &mut ChatStore, error: &str)
    ensures
        final(store)@ == old(store)@.push(BlockView::Info("\u{26a0} "@ + error@)),
{
    store.push(ChatBlock::Info(joined("\u{26a0} ", error)));
}

/// On startup: announce the agent and ask for it to be spawned.
pub fn startup(store: &mut ChatStore) -> (fx: Vec<Effect>)
    ensures
        final(store)@ == pushed_info(old(store)@, "Starting rho\u{2026}"@),
        fx@ == seq![Effect::TailAndRedraw, Effect::SpawnAgent { restart: false }],
{
    push_info(store, String::from_str("Starting rho\u{2026}"));
    effects2(Effect::TailAndRedraw, Effect::SpawnAgent { restart: false })
}

/// A copy of a list of models.
fn copy_models(v: &Vec<ModelChoice>) -> (r: Vec<ModelChoice>)
    ensures
        model_views(r@) == model_views(v@),
{
    let mut out: Vec<ModelChoice> = Vec::new();
    let n = v.len();
    for i in 0..n
        invariant
            n == v@.len(),
            out@.len() == i,
            forall|j: int| 0 <= j < i ==> #[trigger] out@[j]@ == v@[j]@,
    {
        out.push(v[i].duplicate());
    }
    assert(model_views(out@) =~= model_views(v@));
    out
}

/// The state after the user's message `text` is submitted: a steering
/// message while the agent is busy counts as one more steer.
pub open spec fn submitted(av: AppView) -> AppView {
    if av.busy {
        AppView { steer_count: (av.steer_count + 1) as u32, working_state: "steered"@, ..av }
    } else {
        av
    }
}

/// The scrollback after a non-empty message is submitted: the message, as a
/// steering message while the agent is busy, then a notice when no agent is
/// connected.
pub open spec fn submitted_scrollback(s: Seq<BlockView>, busy: bool, text: Seq<char>, connected: bool) -> Seq<BlockView> {
    let pushed = s.push(if busy { BlockView::Steer(text) } else { BlockView::User(text) });
    if connected { pushed } else { pushed.push(BlockView::Info("\u{26a0} rho agent not connected."@)) }
}

/// The effects of picking `model` while `current` is the current model:
/// close the picker, and switch unless it is the current one.
pub open spec fn picked_model_effects(current: Option<Seq<char>>, model: String) -> Seq<Effect> {
    seq![Effect::CloseModal(Modal::Model)] + (if current != Some(model@) {
        seq![Effect::Call(AgentCall::SetModel(model))]
    } else {
        Seq::empty()
    })
}

/// The effects of submitting a non-empty message.
pub open spec fn submit_effects(av: AppView, text: String, connected: bool) -> Seq<Effect> {
    seq![Effect::ClearInput]
        + (if av.busy { seq![Effect::TickWorking, Effect::SteerPlaceholder] } else { Seq::empty() })
        + (if connected { seq![Effect::Call(AgentCall::Prompt { text: text, steer: av.busy })] } else { Seq::empty() })
        + seq![Effect::TailAndRedraw, Effect::FocusInput]
}

impl AppState {
    /// Opens the model picker with an empty filter.
    pub fn open_model_picker(&mut self) -> (fx: Vec<Effect>)
        ensures
            final(self)@ == (AppView { model_filter_text: Seq::empty(), filtered_models: old(self)@.models, ..old(self)@ }),
            fx@ == seq![Effect::ClearModelFilter, Effect::SyncModelList, Effect::OpenModal(Modal::Model)],
    {
        self.model_filter_text = String::new();
        self.filtered_models = copy_models(&self.models);
        effects3(Effect::ClearModelFilter, Effect::SyncModelList, Effect::OpenModal(Modal::Model))
    }

    /// The model filter text changed.
    pub fn model_filter_changed(&mut self, filter: String) -> (fx: Vec<Effect>)
        ensures
            final(self)@ == (AppView {
                model_filter_text: filter@,
                filtered_models: filtered_model_views(old(self)@.models, filter@),
                ..old(self)@
            }),
            fx@ == seq![Effect::SyncModelList],
    {
        self.filtered_models = filter_models(&self.models, filter.as_str());
        self.model_filter_text = filter;
        effects1(Effect::SyncModelList)
    }

    /// A model was picked: close the picker and switch to it unless it is
    /// the current one.
    pub fn pick_model(&mut self, model: String) -> (fx: Vec<Effect>)
        ensures
            final(self)@ == old(self)@,
            fx@ == picked_model_effects(old(self)@.current_model, model),
    {
        let same = match &self.current_model {
            Some(current) => same_text(current.as_str(), model.as_str()),
            None => false,
        };
        effects_then_if(Effect::CloseModal(Modal::Model), !same, Effect::Call(AgentCall::SetModel(model)))
    }

    /// A session was picked: close the picker and resume it.
    pub fn pick_session(&mut self, path: String) -> (fx: Vec<Effect>)
        ensures
            final(self)@ == old(self)@,
            fx@ == seq![Effect::CloseModal(Modal::Session), Effect::Call(AgentCall::ResumeSession(path))],
    {
        effects2(Effect::CloseModal(Modal::Session), Effect::Call(AgentCall::ResumeSession(path)))
    }

    /// The resume confirmation was cancelled.
    pub fn resume_confirm_cancel(&mut self) -> (fx: Vec<Effect>)
        ensures
            final(self)@ == (AppView { pending_resume_path: None, ..old(self)@ }),
            fx@ == seq![Effect::CloseModal(Modal::ResumeConfirm)],
    {
        self.pending_resume_path = None;
        effects1(Effect::CloseModal(Modal::ResumeConfirm))
    }

    /// The resume confirmation was accepted: resume the pending session.
    pub fn resume_confirm_ok(&mut self) -> (fx: Vec<Effect>)
        ensures
            final(self)@ == (AppView { pending_resume_path: None, ..old(self)@ }),
            fx@ == seq![Effect::CloseModal(Modal::ResumeConfirm)] + (match old(self).pending_resume_path {
                Some(p) => seq![Effect::Call(AgentCall::ResumeSession(p))],
                None => Seq::empty(),
            }),
    {
        let pending = self.pending_resume_path.take();
        match pending {
            Some(p) => effects_then_if(Effect::CloseModal(Modal::ResumeConfirm), true, Effect::Call(AgentCall::ResumeSession(p))),
            None => {
                let fx = effects1(Effect::CloseModal(Modal::ResumeConfirm));
                assert(fx@ =~= seq![Effect::CloseModal(Modal::ResumeConfirm)] + Seq::<Effect>::empty());
                fx
            },
        }
    }

    /// The resume confirmation was dismissed.
    pub fn resume_confirm_dismissed(&mut self)
        ensures
            final(self)@ == (AppView { pending_resume_path: None, ..old(self)@ }),
    {
        self.pending_resume_path = None;
    }

    /// The picker rows for the filtered models.
    pub fn model_entries(&self) -> (r: Vec<ModelEntry>)
        ensures
            r@.map_values(|e: ModelEntry| e@) == model_rows(self@),
    {
        let mut out: Vec<ModelEntry> = Vec::new();
        let n = self.filtered_models.len();
        for i in 0..n
            invariant
                n == self.filtered_models@.len(),
                out@.len() == i,
                forall|j: int| 0 <= j < i ==> #[trigger] out@[j]@ == model_rows(self@)[j],
        {
            let m = &self.filtered_models[i];
            let is_current = match &self.current_model {
                Some(current) => same_text(current.as_str(), m.id.as_str()),
                None => false,
            };
            out.push(ModelEntry { id: m.id.clone(), provider: m.provider.clone(), is_current });
        }
        assert(out@.map_values(|e: ModelEntry| e@) =~= model_rows(self@));
        out
    }

    /// The user submitted `text` from the message input. A non-empty text
    /// is pushed as a user message, or as a steering message while the agent
    /// is busy, and sent when an agent is connected; without one, a notice
    /// is pushed instead.
    pub fn submit_input(&mut self, store: &mut ChatStore, text: String, connected: bool) -> (fx: Vec<Effect>)
        requires
            old(self).busy ==> old(self).steer_count < u32::MAX,
        ensures
            text@.len() == 0 ==> final(self)@ == old(self)@ && final(store)@ == old(store)@
                && fx@ == seq![Effect::FocusInput],
            text@.len() > 0 ==> {
                &&& final(self)@ == submitted(old(self)@)
                &&& final(store)@ == submitted_scrollback(old(store)@, old(self).busy, text@, connected)
                &&& fx@ == submit_effects(old(self)@, text, connected)
            },
    {
        if text.as_str().is_empty() {
            return effects1(Effect::FocusInput);
        }
        let steer = self.busy;
        let block = if steer { ChatBlock::Steer(text.clone()) } else { ChatBlock::User(text.clone()) };
        store.push(block);
        let mut fx = effects1(Effect::ClearInput);
        if steer {
            self.steer_count = self.steer_count + 1;
            self.working_state = String::from_str("steered");
            fx.push(Effect::TickWorking);
            fx.push(Effect::SteerPlaceholder);
        }
        let ghost before_call = fx@;
        if connected {
            fx.push(Effect::Call(AgentCall::Prompt { text, steer }));
        } else {
            store.push(ChatBlock::Info(String::from_str("\u{26a0} rho agent not connected.")));
        }
        let ghost before_tail = fx@;
        fx.push(Effect::TailAndRedraw);
        fx.push(Effect::FocusInput);
        proof {
            let av = old(self)@;
            let steer_fx: Seq<Effect> = if av.busy { seq![Effect::TickWorking, Effect::SteerPlaceholder] } else { Seq::empty() };
            let call_fx: Seq<Effect> = if connected { seq![Effect::Call(AgentCall::Prompt { text: text, steer: av.busy })] } else { Seq::empty() };
            assert(before_call =~= seq![Effect::ClearInput] + steer_fx);
            assert(before_tail =~= seq![Effect::ClearInput] + steer_fx + call_fx);
            assert(fx@ =~= submit_effects(av, text, connected));
        }
        fx
    }

    /// A frame of the working-line animation came due: refresh the line and
    /// redraw streamed text that arrived since the last frame.
    pub fn frame_due(&mut self) -> (fx: Vec<Effect>)
        ensures
            final(self)@ == (AppView { stream_dirty: false, ..old(self)@ }),
            fx@ == seq![Effect::TickWorking] + (if old(self).stream_dirty { seq![Effect::Redraw] } else { Seq::empty() }),
    {
        let dirty = self.stream_dirty;
        self.stream_dirty = false;
        effects_then_if(Effect::TickWorking, dirty, Effect::Redraw)
    }
}

} // verus!
