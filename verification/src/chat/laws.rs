use vstd::prelude::*;
use super::model::{BlockView, ResolutionView, ToolStatus};
use super::store::{finalized_reasoning, finalized_response, finalized_tool_call, is_last_pending_call, is_pending_call, lemma_last_pending_unique, toggled, with_final_response, with_reasoning_delta, with_resolution, with_response_delta};

verus! {

/// The text of the response being streamed at the end of the scrollback, or
/// nothing when none is being streamed.
pub open spec fn streaming_response_text(s: Seq<BlockView>) -> Seq<char> {
    if s.len() > 0 {
        match s.last() {
            BlockView::ResponseStreaming(t) => t,
            _ => Seq::empty(),
        }
    } else {
        Seq::empty()
    }
}

/// The text of the reasoning being streamed at the end of the scrollback, or
/// nothing when none is being streamed.
pub open spec fn streaming_reasoning_text(s: Seq<BlockView>) -> Seq<char> {
    if s.len() > 0 {
        match s.last() {
            BlockView::ReasoningStreaming { text } => text,
            _ => Seq::empty(),
        }
    } else {
        Seq::empty()
    }
}

/// Streaming two response deltas one after the other leaves the same
/// scrollback as streaming their concatenation at once.
pub proof fn law_response_deltas_accumulate(s: Seq<BlockView>, a: Seq<char>, b: Seq<char>)
    ensures
        with_response_delta(with_response_delta(s, a), b) == with_response_delta(s, a + b),
{
    if s.len() > 0 && s.last() is ResponseStreaming {
        match s.last() {
            BlockView::ResponseStreaming(t) => {
                assert(t + a + b =~= t + (a + b));
                assert(with_response_delta(with_response_delta(s, a), b) =~= with_response_delta(s, a + b));
            },
            _ => {},
        }
    } else {
        assert(with_response_delta(with_response_delta(s, a), b) =~= with_response_delta(s, a + b));
    }
}

/// Streaming two reasoning deltas one after the other leaves the same
/// scrollback as streaming their concatenation at once.
pub proof fn law_reasoning_deltas_accumulate(s: Seq<BlockView>, a: Seq<char>, b: Seq<char>)
    ensures
        with_reasoning_delta(with_reasoning_delta(s, a), b) == with_reasoning_delta(s, a + b),
{
    if s.len() > 0 && s.last() is ReasoningStreaming {
        match s.last() {
            BlockView::ReasoningStreaming { text } => {
                assert(text + a + b =~= text + (a + b));
                assert(with_reasoning_delta(with_reasoning_delta(s, a), b) =~= with_reasoning_delta(s, a + b));
            },
            _ => {},
        }
    } else {
        assert(with_reasoning_delta(with_reasoning_delta(s, a), b) =~= with_reasoning_delta(s, a + b));
    }
}

/// Finalizing the streamed response a second time changes nothing.
pub proof fn law_finalize_response_idempotent(s: Seq<BlockView>)
    ensures
        finalized_response(finalized_response(s)) == finalized_response(s),
{
}

/// After a delta is streamed and the response finalized, the scrollback ends
/// in a collapsed response holding everything streamed so far, and every
/// block before the streamed one is unchanged.
pub proof fn law_finalized_response_reads_back(s: Seq<BlockView>, d: Seq<char>)
    ensures
        ({
            let f = finalized_response(with_response_delta(s, d));
            &&& f.len() > 0
            &&& f.last() == BlockView::Response { text: streaming_response_text(s) + d, expanded: false }
            &&& f.drop_last() == (if s.len() > 0 && s.last() is ResponseStreaming { s.drop_last() } else { s })
        }),
{
    let f = finalized_response(with_response_delta(s, d));
    if s.len() > 0 && s.last() is ResponseStreaming {
        assert(f.drop_last() =~= s.drop_last());
    } else {
        assert(Seq::<char>::empty() + d =~= d);
        assert(f.drop_last() =~= s);
    }
}

/// After reasoning is streamed and finalized, the scrollback ends in a
/// completed reasoning block holding everything streamed so far.
pub proof fn law_finalized_reasoning_reads_back(s: Seq<BlockView>, d: Seq<char>, elapsed: Seq<char>)
    ensures
        ({
            let f = finalized_reasoning(with_reasoning_delta(s, d), elapsed);
            &&& f.len() > 0
            &&& f.last() == BlockView::Reasoning { text: streaming_reasoning_text(s) + d, elapsed_secs: elapsed }
            &&& f.drop_last() == (if s.len() > 0 && s.last() is ReasoningStreaming { s.drop_last() } else { s })
        }),
{
    let f = finalized_reasoning(with_reasoning_delta(s, d), elapsed);
    if s.len() > 0 && s.last() is ReasoningStreaming {
        assert(f.drop_last() =~= s.drop_last());
    } else {
        assert(Seq::<char>::empty() + d =~= d);
        assert(f.drop_last() =~= s);
    }
}

/// A reply that was streamed is not added a second time by the agent's final
/// reply.
pub proof fn law_streamed_reply_not_duplicated(s: Seq<BlockView>, d: Seq<char>, reply: Seq<char>)
    ensures
        with_final_response(finalized_response(with_response_delta(s, d)), reply)
            == finalized_response(with_response_delta(s, d)),
{
    law_finalized_response_reads_back(s, d);
}

/// The result of a tool lands on the call that was pushed for it last, and
/// adds no block.
pub proof fn law_tool_result_lands_on_pending_call(
    s: Seq<BlockView>,
    name: Seq<char>,
    args: Seq<char>,
    status: ToolStatus,
    output: Option<Seq<char>>,
)
    ensures
        finalized_tool_call(
            s.push(BlockView::ToolCall { name: name, args: args, status: ToolStatus::Pending, output: None, expanded: false }),
            name,
            status,
            output,
        ) == s.push(BlockView::ToolCall { name: name, args: args, status: status, output: output, expanded: false }),
{
    let t = s.push(BlockView::ToolCall { name: name, args: args, status: ToolStatus::Pending, output: None, expanded: false });
    assert(is_last_pending_call(t, name, s.len() as int));
    lemma_last_pending_unique(t, name, s.len() as int);
    assert(finalized_tool_call(t, name, status, output)
        =~= s.push(BlockView::ToolCall { name: name, args: args, status: status, output: output, expanded: false }));
}

/// The result of a tool changes no block but the pending call it lands on,
/// and the scrollback never gets shorter.
pub proof fn law_tool_result_touches_one_call(
    s: Seq<BlockView>,
    name: Seq<char>,
    status: ToolStatus,
    output: Option<Seq<char>>,
)
    ensures
        ({
            let f = finalized_tool_call(s, name, status, output);
            &&& f.len() >= s.len()
            &&& forall|j: int| 0 <= j < s.len() ==> f[j] == s[j] || is_pending_call(s[j], name)
        }),
{
    if exists|i: int| is_last_pending_call(s, name, i) {
        let i = choose|i: int| is_last_pending_call(s, name, i);
        lemma_last_pending_unique(s, name, i);
    }
}

/// Expanding and then collapsing a block restores the scrollback.
pub proof fn law_toggle_twice_restores(s: Seq<BlockView>, index: int)
    ensures
        toggled(toggled(s, index), index) == s,
{
    if 0 <= index < s.len() {
        assert(toggled(toggled(s, index), index) =~= s);
    }
}

/// Answering the approval prompt just pushed sets its resolution in place.
pub proof fn law_approval_resolves_in_place(
    s: Seq<BlockView>,
    tool: Seq<char>,
    arguments: Seq<char>,
    risk: Seq<char>,
    r: ResolutionView,
)
    ensures
        with_resolution(
            s.push(BlockView::Approval { tool: tool, arguments: arguments, risk: risk, resolution: ResolutionView::Pending }),
            s.len() as int,
            r,
        ) == s.push(BlockView::Approval { tool: tool, arguments: arguments, risk: risk, resolution: r }),
{
    assert(with_resolution(
        s.push(BlockView::Approval { tool: tool, arguments: arguments, risk: risk, resolution: ResolutionView::Pending }),
        s.len() as int,
        r,
    ) =~= s.push(BlockView::Approval { tool: tool, arguments: arguments, risk: risk, resolution: r }));
}

/// Streaming and finalizing touch only the last block: every earlier block
/// stays as it was, and the scrollback never gets shorter.
pub proof fn law_streaming_keeps_history(s: Seq<BlockView>, d: Seq<char>, elapsed: Seq<char>, i: int)
    requires
        0 <= i < s.len() - 1,
    ensures
        with_response_delta(s, d).len() >= s.len(),
        with_response_delta(s, d)[i] == s[i],
        with_reasoning_delta(s, d).len() >= s.len(),
        with_reasoning_delta(s, d)[i] == s[i],
        finalized_response(s).len() == s.len(),
        finalized_response(s)[i] == s[i],
        finalized_reasoning(s, elapsed).len() == s.len(),
        finalized_reasoning(s, elapsed)[i] == s[i],
        with_final_response(s, d).len() >= s.len(),
        with_final_response(s, d)[i] == s[i],
{
}

/// Resolving an approval and expanding a block change at most the block at
/// the given index and never the length.
pub proof fn law_index_updates_are_local(s: Seq<BlockView>, index: int, r: ResolutionView, j: int)
    requires
        0 <= j < s.len(),
        j != index,
    ensures
        with_resolution(s, index, r).len() == s.len(),
        with_resolution(s, index, r)[j] == s[j],
        toggled(s, index).len() == s.len(),
        toggled(s, index)[j] == s[j],
{
}

} // verus!
