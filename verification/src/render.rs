use vstd::prelude::*;
use crate::chat::model::{ApprovalResolution, BlockView, ChatBlock, ResolutionView, ToolStatus};
use crate::formatting::{cap_head, cap_tail, capped_head, capped_tail};
use crate::text::chars_of;

verus! {

/// How many characters of a response are shown before it is collapsed.
pub const RESPONSE_CAP: usize = 4000;

/// How many characters of a tool's output are shown before it is collapsed.
pub const OUTPUT_CAP: usize = 10000;

/// The item template a block is drawn with.
#[derive(Clone, Copy, Debug, PartialEq, Eq, Structural)]
pub enum Template {
    User,
    Steer,
    Thought,
    ResponseStreaming,
    Response,
    ToolDone,
    ToolRun,
    ToolFail,
    Info,
    Approval,
}

/// What is drawn for one block: the template, its texts, and the state of
/// its expand button and approval controls.
#[derive(Debug)]
pub struct RenderedBlock {
    pub template: Template,
    /// The heading line, for templates that have one.
    pub head: Option<String>,
    /// The main text (message, reasoning or response body).
    pub body: Option<String>,
    /// The tool output, shown only when present.
    pub output: Option<String>,
    /// The label of the expand/collapse button, shown only when present.
    pub toggle: Option<String>,
    /// Whether the approve/deny/redirect controls are shown.
    pub show_actions: bool,
    /// The resolution line of an answered approval prompt.
    pub resolved: Option<String>,
}

/// The abstract value of a [`RenderedBlock`].
pub struct RenderView {
    pub template: Template,
    pub head: Option<Seq<char>>,
    pub body: Option<Seq<char>>,
    pub output: Option<Seq<char>>,
    pub toggle: Option<Seq<char>>,
    pub show_actions: bool,
    pub resolved: Option<Seq<char>>,
}

/// The characters of an optional string.
pub open spec fn text_opt(o: Option<String>) -> Option<Seq<char>> {
    match o {
        Some(s) => Some(s@),
        None => None,
    }
}

impl View for RenderedBlock {
    type V = RenderView;

    open spec fn view(&self) -> RenderView {
        RenderView {
            template: self.template,
            head: text_opt(self.head),
            body: text_opt(self.body),
            output: text_opt(self.output),
            toggle: text_opt(self.toggle),
            show_actions: self.show_actions,
            resolved: text_opt(self.resolved),
        }
    }
}

/// The label of the expand button of a block in the given state.
pub open spec fn toggle_label(expanded: bool) -> Seq<char> {
    if expanded { "Collapse"@ } else { "Expand"@ }
}

/// What a block with only a main text is drawn as.
pub open spec fn plain(template: Template, body: Seq<char>) -> RenderView {
    RenderView {
        template: template,
        head: None,
        body: Some(body),
        output: None,
        toggle: None,
        show_actions: false,
        resolved: None,
    }
}

/// The template and status text of a tool call in the given status.
pub open spec fn tool_look(status: ToolStatus) -> (Template, Seq<char>) {
    match status {
        ToolStatus::Success => (Template::ToolDone, "\u{2713} done"@),
        ToolStatus::Pending => (Template::ToolRun, "\u{27f3} running"@),
        ToolStatus::Error => (Template::ToolFail, "\u{2717} failed"@),
        ToolStatus::Denied => (Template::ToolRun, "\u{2298} denied"@),
    }
}

/// The resolution line of an approval prompt, or `None` while it is pending.
pub open spec fn resolution_line(r: ResolutionView) -> Option<Seq<char>> {
    match r {
        ResolutionView::Pending => None,
        ResolutionView::Approved => Some("\u{2713} approved"@),
        ResolutionView::Denied => Some("\u{2717} denied"@),
        ResolutionView::Redirected(m) => Some("\u{21aa} redirected: "@ + m),
    }
}

/// What a block is drawn as. Long texts are capped: a finished reasoning or
/// a collapsed response at its head, streaming text at its tail, and a
/// collapsed tool output at its head; the expand button shows only when the
/// full text is longer than the cap.
pub open spec fn rendered(b: BlockView) -> RenderView {
    match b {
        BlockView::User(t) => plain(Template::User, t),
        BlockView::Steer(t) => plain(Template::Steer, t),
        BlockView::Reasoning { text, elapsed_secs } => RenderView {
            template: Template::Thought,
            head: Some("? thought \u{00b7} "@ + elapsed_secs),
            body: Some(capped_head(text, RESPONSE_CAP as nat)),
            output: None,
            toggle: None,
            show_actions: false,
            resolved: None,
        },
        BlockView::ReasoningStreaming { text } => RenderView {
            template: Template::Thought,
            head: Some("? thinking"@),
            body: Some(capped_tail(text, RESPONSE_CAP as nat)),
            output: None,
            toggle: None,
            show_actions: false,
            resolved: None,
        },
        BlockView::ResponseStreaming(t) => plain(Template::ResponseStreaming, capped_tail(t, RESPONSE_CAP as nat)),
        BlockView::Response { text, expanded } => RenderView {
            template: Template::Response,
            head: None,
            body: Some(if expanded { text } else { capped_head(text, RESPONSE_CAP as nat) }),
            output: None,
            toggle: if text.len() > RESPONSE_CAP { Some(toggle_label(expanded)) } else { None },
            show_actions: false,
            resolved: None,
        },
        BlockView::ToolCall { name, args, status, output, expanded } => RenderView {
            template: tool_look(status).0,
            head: Some(name + " "@ + args + " "@ + tool_look(status).1),
            body: None,
            output: match output {
                Some(out) => Some(if expanded { out } else { capped_head(out, OUTPUT_CAP as nat) }),
                None => None,
            },
            toggle: match output {
                Some(out) => if out.len() > OUTPUT_CAP { Some(toggle_label(expanded)) } else { None },
                None => None,
            },
            show_actions: false,
            resolved: None,
        },
        BlockView::Approval { tool, arguments, risk, resolution } => RenderView {
            template: Template::Approval,
            head: Some(tool + " "@ + arguments + " ("@ + risk + ")"@),
            body: None,
            output: None,
            toggle: None,
            show_actions: resolution is Pending,
            resolved: resolution_line(resolution),
        },
        BlockView::Info(t) => plain(Template::Info, t),
    }
}

/// A copy of `t`.
fn text_copy(t: &String) -> (r: String)
    ensures
        r@ == t@,
{
    t.clone()
}

/// The label of the expand button.
fn toggle_text(expanded: bool) -> (r: String)
    ensures
        r@ == toggle_label(expanded),
{
    if expanded { String::from_str("Collapse") } else { String::from_str("Expand") }
}

/// A block with only a main text.
fn plain_block(template: Template, body: String) -> (r: RenderedBlock)
    ensures
        r@ == plain(template, body@),
{
    RenderedBlock {
        template,
        head: None,
        body: Some(body),
        output: None,
        toggle: None,
        show_actions: false,
        resolved: None,
    }
}

/// Whether `t` has more than `cap` characters.
fn longer_than(t: &String, cap: usize) -> (r: bool)
    ensures
        r == (t@.len() > cap),
{
    let chars = chars_of(t.as_str());
    chars.len() > cap
}

/// What a chat block is drawn as (the per-block part of the scrollback's
/// draw pass).
pub fn render_block(block: &ChatBlock) -> (r: RenderedBlock)
    ensures
        r@ == rendered(block@),
{
    match block {
        ChatBlock::User(t) => plain_block(Template::User, text_copy(t)),
        ChatBlock::Steer(t) => plain_block(Template::Steer, text_copy(t)),
        ChatBlock::Reasoning { text, elapsed_secs } => {
            let mut head = String::from_str("? thought \u{00b7} ");
            head.append(elapsed_secs.as_str());
            RenderedBlock {
                template: Template::Thought,
                head: Some(head),
                body: Some(cap_head(text.as_str(), RESPONSE_CAP)),
                output: None,
                toggle: None,
                show_actions: false,
                resolved: None,
            }
        },
        ChatBlock::ReasoningStreaming { text } => RenderedBlock {
            template: Template::Thought,
            head: Some(String::from_str("? thinking")),
            body: Some(cap_tail(text.as_str(), RESPONSE_CAP)),
            output: None,
            toggle: None,
            show_actions: false,
            resolved: None,
        },
        ChatBlock::ResponseStreaming(t) => plain_block(Template::ResponseStreaming, cap_tail(t.as_str(), RESPONSE_CAP)),
        ChatBlock::Response { text, expanded } => {
            let body = if *expanded { text_copy(text) } else { cap_head(text.as_str(), RESPONSE_CAP) };
            let toggle = if longer_than(text, RESPONSE_CAP) { Some(toggle_text(*expanded)) } else { None };
            RenderedBlock {
                template: Template::Response,
                head: None,
                body: Some(body),
                output: None,
                toggle,
                show_actions: false,
                resolved: None,
            }
        },
        ChatBlock::ToolCall { name, args, status, output, expanded } => {
            let (template, status_text): (Template, &str) = match status {
                ToolStatus::Success => (Template::ToolDone, "\u{2713} done"),
                ToolStatus::Pending => (Template::ToolRun, "\u{27f3} running"),
                ToolStatus::Error => (Template::ToolFail, "\u{2717} failed"),
                ToolStatus::Denied => (Template::ToolRun, "\u{2298} denied"),
            };
            let mut head = text_copy(name);
            head.append(" ");
            head.append(args.as_str());
            head.append(" ");
            head.append(status_text);
            let (shown, toggle) = match output {
                Some(out) => {
                    let shown = if *expanded { text_copy(out) } else { cap_head(out.as_str(), OUTPUT_CAP) };
                    let toggle = if longer_than(out, OUTPUT_CAP) { Some(toggle_text(*expanded)) } else { None };
                    (Some(shown), toggle)
                },
                None => (None, None),
            };
            RenderedBlock {
                template,
                head: Some(head),
                body: None,
                output: shown,
                toggle,
                show_actions: false,
                resolved: None,
            }
        },
        ChatBlock::Approval { tool, arguments, risk, resolution } => {
            let mut head = text_copy(tool);
            head.append(" ");
            head.append(arguments.as_str());
            head.append(" (");
            head.append(risk.as_str());
            head.append(")");
            let (show_actions, resolved) = match resolution {
                ApprovalResolution::Pending => (true, None),
                ApprovalResolution::Approved => (false, Some(String::from_str("\u{2713} approved"))),
                ApprovalResolution::Denied => (false, Some(String::from_str("\u{2717} denied"))),
                ApprovalResolution::Redirected(msg) => {
                    let mut line = String::from_str("\u{21aa} redirected: ");
                    line.append(msg.as_str());
                    (false, Some(line))
                },
            };
            RenderedBlock {
                template: Template::Approval,
                head: Some(head),
                body: None,
                output: None,
                toggle: None,
                show_actions,
                resolved,
            }
        },
        ChatBlock::Info(t) => plain_block(Template::Info, text_copy(t)),
    }
}

} // verus!
