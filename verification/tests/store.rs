use rho_ui::chat::model::{ApprovalResolution, ChatBlock, ToolStatus};
use rho_ui::chat::store::ChatStore;

#[test]
fn streaming_response_accumulates_and_finalizes() {
    let mut store = ChatStore::new();
    store.append_streaming_response("hello");
    store.append_streaming_response(" world");
    store.finalize_streaming_response();
    assert!(matches!(&store.snapshot()[0], ChatBlock::Response { text, .. } if text == "hello world"));
}

#[test]
fn streaming_reasoning_accumulates_and_finalizes() {
    let mut store = ChatStore::new();
    store.append_streaming_reasoning("deep");
    store.append_streaming_reasoning(" thoughts");
    store.finalize_reasoning("5.2s".into());
    assert!(matches!(
        &store.snapshot()[0],
        ChatBlock::Reasoning { text, elapsed_secs }
            if text == "deep thoughts" && elapsed_secs == "5.2s"
    ));
}

#[test]
fn finalizing_unknown_tool_pushes_fallback() {
    let mut store = ChatStore::new();
    store.finalize_tool_call("unknown", ToolStatus::Error, Some("failed".into()));
    assert!(matches!(
        &store.snapshot()[0],
        ChatBlock::ToolCall { name, args, status: ToolStatus::Error, output: Some(output), .. }
            if name == "unknown" && args.is_empty() && output == "failed"
    ));
}

#[test]
fn tool_and_approval_mutations_use_indices() {
    let mut store = ChatStore::new();
    store.push_pending_tool_call("read_file".into(), "{}".into());
    store.toggle_expand(0);
    store.push_approval("run_command".into(), "cargo test".into(), "write".into());
    store.resolve_approval(1, ApprovalResolution::Approved);
    let blocks = store.snapshot();
    assert!(matches!(&blocks[0], ChatBlock::ToolCall { expanded: true, .. }));
    assert!(matches!(&blocks[1], ChatBlock::Approval { resolution: ApprovalResolution::Approved, .. }));
}

#[test]
fn tool_result_lands_on_most_recent_pending_call() {
    let mut store = ChatStore::new();
    store.push_pending_tool_call("read".into(), "a".into());
    store.push_pending_tool_call("read".into(), "b".into());
    store.finalize_tool_call("read", ToolStatus::Success, None);
    let blocks = store.snapshot();
    assert_eq!(blocks.len(), 2);
    assert!(matches!(&blocks[0], ChatBlock::ToolCall { args, status: ToolStatus::Pending, .. } if args == "a"));
    assert!(matches!(&blocks[1], ChatBlock::ToolCall { args, status: ToolStatus::Success, .. } if args == "b"));
    store.finalize_tool_call("read", ToolStatus::Denied, Some("no".into()));
    let blocks = store.snapshot();
    assert_eq!(blocks.len(), 2);
    assert!(matches!(&blocks[0], ChatBlock::ToolCall { status: ToolStatus::Denied, output: Some(o), .. } if o == "no"));
}

#[test]
fn final_reply_not_duplicated_after_streaming() {
    let mut store = ChatStore::new();
    store.append_streaming_response("answer");
    store.finalize_streaming_response();
    store.push_final_response_if_missing("answer".into());
    assert_eq!(store.len(), 1);
}

#[test]
fn final_reply_pushed_when_nothing_streamed() {
    let mut store = ChatStore::new();
    store.push(ChatBlock::User("q".into()));
    store.push_final_response_if_missing("reply".into());
    store.push_final_response_if_missing(String::new());
    let blocks = store.snapshot();
    assert_eq!(blocks.len(), 2);
    assert!(matches!(&blocks[1], ChatBlock::Response { text, expanded: false } if text == "reply"));
}

#[test]
fn finalize_twice_changes_nothing_more() {
    let mut store = ChatStore::new();
    store.append_streaming_response("x");
    store.finalize_streaming_response();
    store.finalize_streaming_response();
    assert_eq!(store.len(), 1);
    assert!(matches!(&store.snapshot()[0], ChatBlock::Response { text, .. } if text == "x"));
}

#[test]
fn toggle_twice_restores_and_ignores_other_blocks() {
    let mut store = ChatStore::new();
    store.push(ChatBlock::Response { text: "r".into(), expanded: false });
    store.push(ChatBlock::Info("i".into()));
    store.toggle_expand(0);
    store.toggle_expand(0);
    store.toggle_expand(1);
    store.toggle_expand(7);
    let blocks = store.snapshot();
    assert!(matches!(&blocks[0], ChatBlock::Response { expanded: false, .. }));
    assert!(matches!(&blocks[1], ChatBlock::Info(t) if t == "i"));
}

#[test]
fn resolve_approval_ignores_non_approval_blocks() {
    let mut store = ChatStore::new();
    store.push(ChatBlock::Info("i".into()));
    store.resolve_approval(0, ApprovalResolution::Denied);
    store.resolve_approval(5, ApprovalResolution::Denied);
    assert!(matches!(&store.snapshot()[0], ChatBlock::Info(t) if t == "i"));
}

#[test]
fn push_after_finalizing_response_finalizes_first() {
    let mut store = ChatStore::new();
    store.append_streaming_response("partial");
    store.push_after_finalizing_response(ChatBlock::Info("note".into()));
    let blocks = store.snapshot();
    assert!(matches!(&blocks[0], ChatBlock::Response { text, .. } if text == "partial"));
    assert!(matches!(&blocks[1], ChatBlock::Info(t) if t == "note"));
}

#[test]
fn clear_empties_the_scrollback() {
    let mut store = ChatStore::new();
    store.push(ChatBlock::Info("a".into()));
    store.clear();
    assert_eq!(store.len(), 0);
}
