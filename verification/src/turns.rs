use vstd::prelude::*;
use crate::chat::model::BlockView;
use crate::controller::{AppView, Effect, event_fits, event_step, response_step};
use crate::entries::model_order;
use crate::json::Json;
use crate::protocol::RequestKind;
use crate::sorting::stably_sorted;
use crate::controller::listed_models;
use crate::protocol::EventView;

verus! {

/// The events after which the agent's turn is over, whatever the state.
pub open spec fn ends_turn(ev: EventView) -> bool {
    ev is AgentEnd || ev is AgentError || ev is Closed
}

/// The agent's end, an agent error or the agent process exiting leave the
/// window idle with no steer counted, and stop the working line: the
/// spinner cannot stay on after a turn is over.
pub proof fn law_turn_end_stops_working(
    av: AppView,
    s: Seq<BlockView>,
    ev: EventView,
    av2: AppView,
    s2: Seq<BlockView>,
    fx: Seq<Effect>,
)
    requires
        ends_turn(ev),
        event_step(av, s, ev, av2, s2, fx),
    ensures
        !av2.busy,
        av2.steer_count == 0,
        fx.contains(Effect::StopWorking),
{
    match ev {
        EventView::AgentEnd { .. } => assert(fx[0] == Effect::StopWorking),
        EventView::AgentError { .. } => assert(fx[1] == Effect::StopWorking),
        _ => assert(fx[2] == Effect::StopWorking),
    }
}

/// An `idle` state change never leaves the window busy; when it ends a busy
/// turn it also clears the steer count and stops the working line.
pub proof fn law_idle_state_ends_busy_turn(
    av: AppView,
    s: Seq<BlockView>,
    state: Seq<char>,
    av2: AppView,
    s2: Seq<BlockView>,
    fx: Seq<Effect>,
)
    requires
        state == "idle"@,
        event_step(av, s, EventView::StateChange { state: state }, av2, s2, fx),
    ensures
        !av2.busy,
        av2.working_state == state,
        s2 == s,
        av.busy ==> av2.steer_count == 0 && fx.contains(Effect::StopWorking),
{
    if av.busy {
        assert(fx[1] == Effect::StopWorking);
    }
}

/// Usage reports add up: after two reports the token counters have grown by
/// both, the context snapshot is the later one, and the scrollback is as it
/// was.
pub proof fn law_usage_adds_up(
    av: AppView,
    s: Seq<BlockView>,
    e1: EventView,
    e2: EventView,
    av1: AppView,
    s1: Seq<BlockView>,
    fx1: Seq<Effect>,
    av2: AppView,
    s2: Seq<BlockView>,
    fx2: Seq<Effect>,
)
    requires
        e1 is Usage,
        e2 is Usage,
        event_fits(av, e1),
        event_step(av, s, e1, av1, s1, fx1),
        event_fits(av1, e2),
        event_step(av1, s1, e2, av2, s2, fx2),
    ensures
        av2.usage.input == av.usage.input + e1->input_tokens + e2->input_tokens,
        av2.usage.output == av.usage.output + e1->output_tokens + e2->output_tokens,
        av2.usage.cached == av.usage.cached + e1->cached_tokens + e2->cached_tokens,
        av2.usage.ctx_used == e2->context_used,
        av2.usage.ctx_window == e2->context_window,
        av2.usage.util == e2->utilization,
        s2 == s,
{
}

/// The answer to `listModels` lists every model it names, sorted by
/// provider and then id (equal entries in the order given); with an empty
/// filter the picker shows all of them.
pub proof fn law_models_answer_fills_picker(
    av: AppView,
    s: Seq<BlockView>,
    result: Json,
    av2: AppView,
    s2: Seq<BlockView>,
    fx: Seq<Effect>,
)
    requires
        response_step(av, s, RequestKind::ListModels, result, av2, s2, fx),
    ensures
        stably_sorted(av2.models, listed_models(result), model_order()),
        av.model_filter_text.len() == 0 ==> av2.filtered_models == av2.models,
        s2 == s,
{
}

} // verus!
