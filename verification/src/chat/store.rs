use vstd::prelude::*;
use super::model::{ApprovalResolution, BlockView, ChatBlock, ResolutionView, ToolStatus, opt_view};

verus! {

// ── The scrollback as a sequence of abstract blocks ─────────────────────────

/// The scrollback after a streaming response at its end, if any, is turned
/// into a finalized, collapsed response with the same text.
pub open spec fn finalized_response(s: Seq<BlockView>) -> Seq<BlockView> {
    if s.len() > 0 {
        match s.last() {
            BlockView::ResponseStreaming(t) => s.drop_last().push(
                BlockView::Response { text: t, expanded: false },
            ),
            _ => s,
        }
    } else {
        s
    }
}

/// The scrollback after `delta` is streamed into the response: appended to a
/// streaming response at the end, or started as a new one.
pub open spec fn with_response_delta(s: Seq<BlockView>, delta: Seq<char>) -> Seq<BlockView> {
    if s.len() > 0 && s.last() is ResponseStreaming {
        match s.last() {
            BlockView::ResponseStreaming(t) => s.update(
                s.len() - 1,
                BlockView::ResponseStreaming(t + delta),
            ),
            _ => s,
        }
    } else {
        s.push(BlockView::ResponseStreaming(delta))
    }
}

/// The scrollback after `delta` is streamed into the reasoning: appended to a
/// streaming reasoning block at the end, or started as a new one.
pub open spec fn with_reasoning_delta(s: Seq<BlockView>, delta: Seq<char>) -> Seq<BlockView> {
    if s.len() > 0 && s.last() is ReasoningStreaming {
        match s.last() {
            BlockView::ReasoningStreaming { text } => s.update(
                s.len() - 1,
                BlockView::ReasoningStreaming { text: text + delta },
            ),
            _ => s,
        }
    } else {
        s.push(BlockView::ReasoningStreaming { text: delta })
    }
}

/// The scrollback after streaming reasoning at its end, if any, is turned
/// into a completed reasoning block labelled with `elapsed`.
pub open spec fn finalized_reasoning(s: Seq<BlockView>, elapsed: Seq<char>) -> Seq<BlockView> {
    if s.len() > 0 {
        match s.last() {
            BlockView::ReasoningStreaming { text } => s.drop_last().push(
                BlockView::Reasoning { text: text, elapsed_secs: elapsed },
            ),
            _ => s,
        }
    } else {
        s
    }
}

/// The scrollback after the agent's final `reply`: pushed as a collapsed
/// response unless it is empty or a response already ends the scrollback.
pub open spec fn with_final_response(s: Seq<BlockView>, reply: Seq<char>) -> Seq<BlockView> {
    if reply.len() == 0 || (s.len() > 0 && s.last() is Response) {
        s
    } else {
        s.push(BlockView::Response { text: reply, expanded: false })
    }
}

/// A tool call named `name` that is still waiting for its result.
pub open spec fn is_pending_call(b: BlockView, name: Seq<char>) -> bool {
    match b {
        BlockView::ToolCall { name: n, status, .. } => n == name && status == ToolStatus::Pending,
        _ => false,
    }
}

/// `i` is the position of the most recent pending call named `name`.
pub open spec fn is_last_pending_call(s: Seq<BlockView>, name: Seq<char>, i: int) -> bool {
    &&& 0 <= i < s.len()
    &&& is_pending_call(s[i], name)
    &&& forall|j: int| i < j < s.len() ==> !is_pending_call(#[trigger] s[j], name)
}

/// The tool call `b` with its status and output set.
pub open spec fn resolved_call(b: BlockView, status: ToolStatus, output: Option<Seq<char>>) -> BlockView {
    match b {
        BlockView::ToolCall { name, args, expanded, .. } => BlockView::ToolCall {
            name: name,
            args: args,
            status: status,
            output: output,
            expanded: expanded,
        },
        _ => b,
    }
}

/// The scrollback after the result of tool `name` arrives: the most recent
/// pending call of that name takes the status and output; when there is
/// none, a finished call with empty arguments is pushed instead.
pub open spec fn finalized_tool_call(
    s: Seq<BlockView>,
    name: Seq<char>,
    status: ToolStatus,
    output: Option<Seq<char>>,
) -> Seq<BlockView> {
    if exists|i: int| is_last_pending_call(s, name, i) {
        let i = choose|i: int| is_last_pending_call(s, name, i);
        s.update(i, resolved_call(s[i], status, output))
    } else {
        s.push(
            BlockView::ToolCall {
                name: name,
                args: Seq::empty(),
                status: status,
                output: output,
                expanded: false,
            },
        )
    }
}

/// The scrollback after the approval prompt at `index`, if there is one,
/// takes `r` as its resolution.
pub open spec fn with_resolution(s: Seq<BlockView>, index: int, r: ResolutionView) -> Seq<BlockView> {
    if 0 <= index < s.len() {
        match s[index] {
            BlockView::Approval { tool, arguments, risk, .. } => s.update(
                index,
                BlockView::Approval { tool: tool, arguments: arguments, risk: risk, resolution: r },
            ),
            _ => s,
        }
    } else {
        s
    }
}

/// The scrollback after the block at `index` is expanded or collapsed; only
/// tool calls and finalized responses have that state.
pub open spec fn toggled(s: Seq<BlockView>, index: int) -> Seq<BlockView> {
    if 0 <= index < s.len() {
        match s[index] {
            BlockView::ToolCall { name, args, status, output, expanded } => s.update(
                index,
                BlockView::ToolCall {
                    name: name,
                    args: args,
                    status: status,
                    output: output,
                    expanded: !expanded,
                },
            ),
            BlockView::Response { text, expanded } => s.update(
                index,
                BlockView::Response { text: text, expanded: !expanded },
            ),
            _ => s,
        }
    } else {
        s
    }
}

// ── The store ───────────────────────────────────────────────────────────────

/// The chat scrollback: every block the conversation has produced, oldest first.
#[derive(Debug)]
pub struct ChatStore {
    blocks: Vec<ChatBlock>,
}

impl View for ChatStore {
    type V = Seq<BlockView>;

    closed spec fn view(&self) -> Seq<BlockView> {
        self.blocks@.map_values(|b: ChatBlock| b@)
    }
}

impl ChatStore {
    /// An empty scrollback.
    pub fn new() -> (r: Self)
        ensures
            r@ == Seq::<BlockView>::empty(),
    {
        let r = ChatStore { blocks: Vec::new() };
        assert(r@ =~= Seq::<BlockView>::empty());
        r
    }

    /// A copy of every block, oldest first.
    pub fn snapshot(&self) -> (r: Vec<ChatBlock>)
        ensures
            r@.map_values(|b: ChatBlock| b@) == self@,
    {
        let mut r: Vec<ChatBlock> = Vec::new();
        let n = self.blocks.len();
        for i in 0..n
            invariant
                n == self.blocks@.len(),
                r@.len() == i,
                forall|j: int| 0 <= j < i ==> #[trigger] r@[j]@ == self.blocks@[j]@,
        {
            r.push(self.blocks[i].duplicate());
        }
        assert(r@.map_values(|b: ChatBlock| b@) =~= self@);
        r
    }

    /// The number of blocks.
    pub fn len(&self) -> (r: usize)
        ensures
            r == self@.len(),
    {
        self.blocks.len()
    }

    /// Appends a block.
    pub fn push(&mut self, block: ChatBlock)
        ensures
            final(self)@ == old(self)@.push(block@),
    {
        self.blocks.push(block);
        assert(self@ =~= old(self)@.push(block@));
    }

    /// Removes the last block, if any, and returns it.
    fn pop_last(&mut self) -> (r: Option<ChatBlock>)
        ensures
            old(self)@.len() == 0 ==> r is None && final(self)@ == old(self)@,
            old(self)@.len() > 0 ==> r is Some && r->0@ == old(self)@.last()
                && final(self)@ == old(self)@.drop_last(),
    {
        let r = self.blocks.pop();
        proof {
            if old(self)@.len() > 0 {
                assert(self@ =~= old(self)@.drop_last());
            } else {
                assert(self@ =~= old(self)@);
            }
        }
        r
    }

    /// Finalizes any streaming response, then appends `block`.
    pub fn push_after_finalizing_response(&mut self, block: ChatBlock)
        ensures
            final(self)@ == finalized_response(old(self)@).push(block@),
    {
        self.finalize_streaming_response();
        self.push(block);
    }

    /// Streams `delta` into the response at the end of the scrollback.
    pub fn append_streaming_response(&mut self, delta: &str)
        ensures
            final(self)@ == with_response_delta(old(self)@, delta@),
    {
        let ghost s = self@;
        match self.pop_last() {
            Some(ChatBlock::ResponseStreaming(mut text)) => {
                text.append(delta);
                self.push(ChatBlock::ResponseStreaming(text));
                assert(self@ =~= with_response_delta(s, delta@));
            },
            Some(other) => {
                self.push(other);
                assert(self@ =~= s);
                self.push(ChatBlock::ResponseStreaming(String::from_str(delta)));
            },
            None => {
                self.push(ChatBlock::ResponseStreaming(String::from_str(delta)));
            },
        }
    }

    /// Turns a streaming response at the end into a finalized, collapsed one.
    pub fn finalize_streaming_response(&mut self)
        ensures
            final(self)@ == finalized_response(old(self)@),
    {
        let ghost s = self@;
        match self.pop_last() {
            Some(ChatBlock::ResponseStreaming(text)) => {
                self.push(ChatBlock::Response { text, expanded: false });
            },
            Some(other) => {
                self.push(other);
                assert(self@ =~= s);
            },
            None => {},
        }
    }

    /// Streams `delta` into the reasoning at the end of the scrollback.
    pub fn append_streaming_reasoning(&mut self, delta: &str)
        ensures
            final(self)@ == with_reasoning_delta(old(self)@, delta@),
    {
        let ghost s = self@;
        match self.pop_last() {
            Some(ChatBlock::ReasoningStreaming { mut text }) => {
                text.append(delta);
                self.push(ChatBlock::ReasoningStreaming { text });
                assert(self@ =~= with_reasoning_delta(s, delta@));
            },
            Some(other) => {
                self.push(other);
                assert(self@ =~= s);
                self.push(ChatBlock::ReasoningStreaming { text: String::from_str(delta) });
            },
            None => {
                self.push(ChatBlock::ReasoningStreaming { text: String::from_str(delta) });
            },
        }
    }

    /// Turns streaming reasoning at the end into a completed block labelled
    /// with `elapsed_secs`.
    pub fn finalize_reasoning(&mut self, elapsed_secs: String)
        ensures
            final(self)@ == finalized_reasoning(old(self)@, elapsed_secs@),
    {
        let ghost s = self@;
        match self.pop_last() {
            Some(ChatBlock::ReasoningStreaming { text }) => {
                self.push(ChatBlock::Reasoning { text, elapsed_secs });
            },
            Some(other) => {
                self.push(other);
                assert(self@ =~= s);
            },
            None => {},
        }
    }

    /// Pushes the agent's final reply as a response when nothing was streamed.
    pub fn push_final_response_if_missing(&mut self, reply: String)
        ensures
            final(self)@ == with_final_response(old(self)@, reply@),
    {
        if reply.as_str().is_empty() {
            return;
        }
        let n = self.blocks.len();
        let ends_with_response = n > 0 && match &self.blocks[n - 1] {
            ChatBlock::Response { .. } => true,
            _ => false,
        };
        if !ends_with_response {
            self.push(ChatBlock::Response { text: reply, expanded: false });
        }
    }

    /// Appends a tool call that is waiting for its result.
    pub fn push_pending_tool_call(&mut self, name: String, args: String)
        ensures
            final(self)@ == old(self)@.push(
                BlockView::ToolCall {
                    name: name@,
                    args: args@,
                    status: ToolStatus::Pending,
                    output: None,
                    expanded: false,
                },
            ),
    {
        self.push(ChatBlock::ToolCall {
            name,
            args,
            status: ToolStatus::Pending,
            output: None,
            expanded: false,
        });
    }

    /// Records the result of tool `name` on its most recent pending call, or
    /// pushes a finished call when none is pending.
    pub fn finalize_tool_call(&mut self, name: &str, status: ToolStatus, output: Option<String>)
        ensures
            final(self)@ == finalized_tool_call(old(self)@, name@, status, opt_view(output)),
    {
        let ghost s = self@;
        let ghost out = opt_view(output);
        let n = self.blocks.len();
        let mut i = n;
        while i > 0
            invariant
                i <= n == self.blocks@.len(),
                self@ == s,
                s == old(self)@,
                out == opt_view(output),
                forall|j: int| i <= j < n ==> !is_pending_call(#[trigger] s[j], name@),
            decreases i,
        {
            i = i - 1;
            let pending = match &self.blocks[i] {
                ChatBlock::ToolCall { name: block_name, status: block_status, .. } => {
                    crate::text::same_text(block_name.as_str(), name)
                        && *block_status == ToolStatus::Pending
                },
                _ => false,
            };
            assert(s[i as int] == self.blocks@[i as int]@);
            if pending {
                assert(is_last_pending_call(s, name@, i as int));
                proof {
                    lemma_last_pending_unique(s, name@, i as int);
                }
                let mut block = ChatBlock::Info(String::new());
                self.blocks.set_and_swap(i, &mut block);
                assert(block@ == s[i as int]);
                let updated = match block {
                    ChatBlock::ToolCall { name: block_name, args, expanded, .. } => ChatBlock::ToolCall {
                        name: block_name,
                        args,
                        status,
                        output,
                        expanded,
                    },
                    other => other,
                };
                assert(updated@ == resolved_call(s[i as int], status, out));
                self.blocks.set(i, updated);
                assert(self@ =~= s.update(i as int, resolved_call(s[i as int], status, out)));
                return;
            }
        }
        assert(!exists|k: int| is_last_pending_call(s, name@, k));
        self.push(ChatBlock::ToolCall {
            name: String::from_str(name),
            args: String::new(),
            status,
            output,
            expanded: false,
        });
    }

    /// Appends a tool-approval prompt that has not been answered yet.
    pub fn push_approval(&mut self, tool: String, arguments: String, risk: String)
        ensures
            final(self)@ == old(self)@.push(
                BlockView::Approval {
                    tool: tool@,
                    arguments: arguments@,
                    risk: risk@,
                    resolution: ResolutionView::Pending,
                },
            ),
    {
        self.push(ChatBlock::Approval {
            tool,
            arguments,
            risk,
            resolution: ApprovalResolution::Pending,
        });
    }

    /// Sets the resolution of the approval prompt at `index`; any other
    /// block, or an index past the end, is left alone.
    pub fn resolve_approval(&mut self, index: usize, resolution: ApprovalResolution)
        ensures
            final(self)@ == with_resolution(old(self)@, index as int, resolution@),
    {
        let ghost s = self@;
        if index < self.blocks.len() {
            assert(s[index as int] == self.blocks@[index as int]@);
            let mut block = ChatBlock::Info(String::new());
            self.blocks.set_and_swap(index, &mut block);
            let updated = match block {
                ChatBlock::Approval { tool, arguments, risk, .. } => ChatBlock::Approval {
                    tool,
                    arguments,
                    risk,
                    resolution,
                },
                other => other,
            };
            self.blocks.set(index, updated);
            assert(self@ =~= with_resolution(s, index as int, resolution@));
        }
    }

    /// Expands or collapses the tool call or response at `index`.
    pub fn toggle_expand(&mut self, index: usize)
        ensures
            final(self)@ == toggled(old(self)@, index as int),
    {
        let ghost s = self@;
        if index < self.blocks.len() {
            assert(s[index as int] == self.blocks@[index as int]@);
            let mut block = ChatBlock::Info(String::new());
            self.blocks.set_and_swap(index, &mut block);
            let updated = match block {
                ChatBlock::ToolCall { name, args, status, output, expanded } => ChatBlock::ToolCall {
                    name,
                    args,
                    status,
                    output,
                    expanded: !expanded,
                },
                ChatBlock::Response { text, expanded } => ChatBlock::Response {
                    text,
                    expanded: !expanded,
                },
                other => other,
            };
            self.blocks.set(index, updated);
            assert(self@ =~= toggled(s, index as int));
        }
    }

    /// Removes every block.
    pub fn clear(&mut self)
        ensures
            final(self)@ == Seq::<BlockView>::empty(),
    {
        self.blocks.clear();
        assert(self@ =~= Seq::<BlockView>::empty());
    }
}

/// The most recent pending call of a name is unique.
pub proof fn lemma_last_pending_unique(s: Seq<BlockView>, name: Seq<char>, i: int)
    requires
        is_last_pending_call(s, name, i),
    ensures
        forall|k: int| is_last_pending_call(s, name, k) ==> k == i,
        (choose|k: int| is_last_pending_call(s, name, k)) == i,
{
    assert forall|k: int| is_last_pending_call(s, name, k) implies k == i by {
        if k < i {
            assert(!is_pending_call(s[i], name));
        } else if k > i {
            assert(!is_pending_call(s[k], name));
        }
    }
}

} // verus!
