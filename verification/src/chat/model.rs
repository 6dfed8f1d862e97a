use vstd::prelude::*;

verus! {

/// The outcome of a tool call as shown in the scrollback.
#[derive(Clone, Copy, Debug, PartialEq, Eq, Structural)]
pub enum ToolStatus {
    Pending,
    Success,
    Error,
    Denied,
}

/// How the user answered a tool-approval prompt.
#[derive(Clone, Debug)]
pub enum ApprovalResolution {
    Pending,
    Approved,
    Denied,
    Redirected(String),
}

/// The abstract value of an [`ApprovalResolution`].
pub enum ResolutionView {
    Pending,
    Approved,
    Denied,
    Redirected(Seq<char>),
}

impl View for ApprovalResolution {
    type V = ResolutionView;

    open spec fn view(&self) -> ResolutionView {
        match self {
            ApprovalResolution::Pending => ResolutionView::Pending,
            ApprovalResolution::Approved => ResolutionView::Approved,
            ApprovalResolution::Denied => ResolutionView::Denied,
            ApprovalResolution::Redirected(m) => ResolutionView::Redirected(m@),
        }
    }
}

impl ApprovalResolution {
    /// A copy with the same abstract value.
    pub fn duplicate(&self) -> (r: Self)
        ensures
            r@ == self@,
    {
        match self {
            ApprovalResolution::Pending => ApprovalResolution::Pending,
            ApprovalResolution::Approved => ApprovalResolution::Approved,
            ApprovalResolution::Denied => ApprovalResolution::Denied,
            ApprovalResolution::Redirected(m) => ApprovalResolution::Redirected(m.clone()),
        }
    }
}

/// One entry of the chat scrollback.
#[derive(Clone, Debug)]
pub enum ChatBlock {
    /// A user-submitted message.
    User(String),
    /// A mid-turn steering message (sent while the agent was busy).
    Steer(String),
    /// A completed reasoning ("thinking") block with elapsed time.
    Reasoning { text: String, elapsed_secs: String },
    /// A streaming reasoning block (still thinking).
    ReasoningStreaming { text: String },
    /// A streaming response rendered as a cheap label until finalized.
    ResponseStreaming(String),
    /// A finalized response rendered as markdown (collapsible).
    Response { text: String, expanded: bool },
    /// A tool call block with status.
    ToolCall {
        name: String,
        args: String,
        status: ToolStatus,
        output: Option<String>,
        expanded: bool,
    },
    /// A tool-approval prompt from the agent.
    Approval {
        tool: String,
        arguments: String,
        risk: String,
        resolution: ApprovalResolution,
    },
    /// A system/info message.
    Info(String),
}

/// The abstract value of a [`ChatBlock`]: every string taken by its characters.
pub enum BlockView {
    User(Seq<char>),
    Steer(Seq<char>),
    Reasoning { text: Seq<char>, elapsed_secs: Seq<char> },
    ReasoningStreaming { text: Seq<char> },
    ResponseStreaming(Seq<char>),
    Response { text: Seq<char>, expanded: bool },
    ToolCall {
        name: Seq<char>,
        args: Seq<char>,
        status: ToolStatus,
        output: Option<Seq<char>>,
        expanded: bool,
    },
    Approval {
        tool: Seq<char>,
        arguments: Seq<char>,
        risk: Seq<char>,
        resolution: ResolutionView,
    },
    Info(Seq<char>),
}

/// The characters of an optional string.
pub open spec fn opt_view(o: Option<String>) -> Option<Seq<char>> {
    match o {
        Some(s) => Some(s@),
        None => None,
    }
}

impl View for ChatBlock {
    type V = BlockView;

    open spec fn view(&self) -> BlockView {
        match self {
            ChatBlock::User(t) => BlockView::User(t@),
            ChatBlock::Steer(t) => BlockView::Steer(t@),
            ChatBlock::Reasoning { text, elapsed_secs } => BlockView::Reasoning {
                text: text@,
                elapsed_secs: elapsed_secs@,
            },
            ChatBlock::ReasoningStreaming { text } => BlockView::ReasoningStreaming { text: text@ },
            ChatBlock::ResponseStreaming(t) => BlockView::ResponseStreaming(t@),
            ChatBlock::Response { text, expanded } => BlockView::Response {
                text: text@,
                expanded: *expanded,
            },
            ChatBlock::ToolCall { name, args, status, output, expanded } => BlockView::ToolCall {
                name: name@,
                args: args@,
                status: *status,
                output: opt_view(*output),
                expanded: *expanded,
            },
            ChatBlock::Approval { tool, arguments, risk, resolution } => BlockView::Approval {
                tool: tool@,
                arguments: arguments@,
                risk: risk@,
                resolution: resolution@,
            },
            ChatBlock::Info(t) => BlockView::Info(t@),
        }
    }
}

/// A copy of an optional string.
pub fn duplicate_opt(o: &Option<String>) -> (r: Option<String>)
    ensures
        opt_view(r) == opt_view(*o),
{
    match o {
        Some(s) => Some(s.clone()),
        None => None,
    }
}

impl ChatBlock {
    /// A copy with the same abstract value.
    pub fn duplicate(&self) -> (r: Self)
        ensures
            r@ == self@,
    {
        match self {
            ChatBlock::User(t) => ChatBlock::User(t.clone()),
            ChatBlock::Steer(t) => ChatBlock::Steer(t.clone()),
            ChatBlock::Reasoning { text, elapsed_secs } => ChatBlock::Reasoning {
                text: text.clone(),
                elapsed_secs: elapsed_secs.clone(),
            },
            ChatBlock::ReasoningStreaming { text } => ChatBlock::ReasoningStreaming { text: text.clone() },
            ChatBlock::ResponseStreaming(t) => ChatBlock::ResponseStreaming(t.clone()),
            ChatBlock::Response { text, expanded } => ChatBlock::Response {
                text: text.clone(),
                expanded: *expanded,
            },
            ChatBlock::ToolCall { name, args, status, output, expanded } => ChatBlock::ToolCall {
                name: name.clone(),
                args: args.clone(),
                status: *status,
                output: duplicate_opt(output),
                expanded: *expanded,
            },
            ChatBlock::Approval { tool, arguments, risk, resolution } => ChatBlock::Approval {
                tool: tool.clone(),
                arguments: arguments.clone(),
                risk: risk.clone(),
                resolution: resolution.duplicate(),
            },
            ChatBlock::Info(t) => ChatBlock::Info(t.clone()),
        }
    }
}

} // verus!
