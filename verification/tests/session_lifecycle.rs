use conduit_ui::agent::{missing_tool_message, ToolNeed};
use conduit_ui::persistence::{plan_restore, RestoreStart};
use conduit_ui::events::{
    is_file_edit_tool, tool_completion_text, on_interrupt, on_question_answered, on_question_sent, on_start_failed, on_stream_ended,
    TurnState,
};
use conduit_ui::output::combine_shell_output;
use conduit_ui::mention::{should_descend, DirEntry, MentionScan, MAX_MENTION_FILES};
use conduit_ui::queue::{take_queued, QueuedMessage, QueuedMessageMode};
use conduit_ui::status::StatusState;
use conduit_ui::command::InputMode;
use conduit_ui::tabs::{mode_after_closing, tabs_to_close};

fn turn() -> TurnState {
    TurnState {
        is_processing: true,
        tools_in_flight: 2,
        has_live_input: true,
        supports_interactive_input: true,
        has_inline_prompt: true,
        queued_count: 1,
        suppress_next_assistant_reply: true,
        suppress_next_turn_summary: true,
        needs_attention: false,
        pr_number: None,
        has_pending_user_message: false,
        agent_session_id: Some("s".to_string()),
        has_model: true,
        model_invalid: false,
    }
}

#[test]
fn stream_end_leaves_the_session_idle() {
    let mut s = turn();
    assert!(on_stream_ended(&mut s, true));
    assert!(!s.is_processing && s.tools_in_flight == 0 && !s.has_live_input);
    assert!(!s.suppress_next_assistant_reply && !s.suppress_next_turn_summary);
    assert_eq!(s.agent_session_id.as_deref(), Some("s"));
    assert!(!on_stream_ended(&mut s, true));
    let mut t = turn();
    assert!(!on_stream_ended(&mut t, false));
}

#[test]
fn failed_start_and_interrupt() {
    let mut s = turn();
    assert!(!on_start_failed(&mut s, false));
    assert!(!s.is_processing && s.tools_in_flight == 0 && !s.has_live_input);
    let mut t = turn();
    assert!(on_interrupt(&mut t));
    assert!(!t.is_processing && !t.has_live_input && !t.has_inline_prompt);
    assert_eq!(t.tools_in_flight, 2);
    assert!(!on_interrupt(&mut t));
}

#[test]
fn question_answers_balance_tools() {
    let mut s = turn();
    s.tools_in_flight = 0;
    s.is_processing = false;
    assert!(on_question_sent(&mut s));
    assert!(s.is_processing);
    assert_eq!(s.tools_in_flight, 1);
    assert!(on_question_answered(&mut s, true));
    assert_eq!(s.tools_in_flight, 0);
    assert!(!s.is_processing);
    let mut busy = turn();
    assert!(!on_question_answered(&mut busy, true));
    assert_eq!(busy.tools_in_flight, 1);
    assert!(busy.is_processing);
    let mut offline = turn();
    offline.has_live_input = false;
    assert!(!on_question_sent(&mut offline));
    assert!(!offline.is_processing);
    assert_eq!(offline.tools_in_flight, 2);
}

fn msg(id: u128) -> QueuedMessage {
    QueuedMessage { id, mode: QueuedMessageMode::Steer, text: format!("m{id}"), images: Vec::new(), created_at_ms: 0 }
}

#[test]
fn take_queued_by_id() {
    let mut q = vec![msg(1), msg(2), msg(3)];
    let taken = take_queued(&mut q, 2).expect("message 2");
    assert_eq!(taken.text, "m2");
    assert_eq!(q.iter().map(|m| m.id).collect::<Vec<_>>(), vec![1, 3]);
    assert!(take_queued(&mut q, 9).is_none());
    assert_eq!(q.len(), 2);
}

#[test]
fn branch_change_waits_for_busy_workspace() {
    let mut s = StatusState::new();
    assert_eq!(s.note_branch_change(7, Some("main".to_string())), Some(Some("main".to_string())));
    s.mark_workspace_busy(7);
    assert_eq!(s.note_branch_change(7, Some("a".to_string())), None);
    assert_eq!(s.note_branch_change(7, None), None);
    let (changed, pending) = s.clear_workspace_busy(7);
    assert!(changed);
    assert_eq!(pending, Some(None));
    let (changed, pending) = s.clear_workspace_busy(7);
    assert!(!changed);
    assert_eq!(pending, None);
}

#[test]
fn mention_directory_filter() {
    assert!(should_descend("src"));
    assert!(!should_descend("node_modules"));
    assert!(!should_descend("target"));
    assert!(!should_descend(".github"));
    assert!(!should_descend("env"));
    assert!(should_descend("environment"));
}

fn file(name: &str) -> DirEntry {
    DirEntry { name: name.to_string(), path: format!("/r/{name}"), is_dir: false, is_file: true, relative: Some(name.to_string()) }
}

fn dir(name: &str) -> DirEntry {
    DirEntry { name: name.to_string(), path: format!("/r/{name}"), is_dir: true, is_file: false, relative: None }
}

#[test]
fn mention_walk_order_and_limits() {
    let mut scan = MentionScan::new("/r".to_string());
    let (root, depth) = scan.next_dir().expect("root");
    assert_eq!((root.as_str(), depth), ("/r", 0));
    assert!(!scan.add_entries(0, vec![file("b.rs"), dir("src"), dir(".git"), file("a.rs")]));
    let (next, depth) = scan.next_dir().expect("src");
    assert_eq!((next.as_str(), depth), ("/r/src", 1));
    assert!(!scan.add_entries(1, vec![file("src/main.rs")]));
    assert!(scan.next_dir().is_none());
    assert_eq!(scan.finish(), vec!["a.rs".to_string(), "b.rs".to_string(), "src/main.rs".to_string()]);
}

#[test]
fn mention_walk_stops_when_full() {
    let mut scan = MentionScan::new("/r".to_string());
    scan.next_dir();
    let many: Vec<DirEntry> = (0..MAX_MENTION_FILES + 10).map(|i| file(&format!("f{i:04}"))).collect();
    assert!(scan.add_entries(0, many));
    assert!(scan.next_dir().is_none());
    let files = scan.finish();
    assert_eq!(files.len(), MAX_MENTION_FILES);
    assert_eq!(files[0], "f0000");
}

#[test]
fn mention_walk_skips_deep_directories() {
    let mut scan = MentionScan::new("/r".to_string());
    let mut depth = 0;
    while let Some((_, d)) = scan.next_dir() {
        depth = d;
        scan.add_entries(d, vec![dir("deeper")]);
    }
    assert_eq!(depth, 4);
}

#[test]
fn shell_output_is_joined_line_by_line() {
    assert_eq!(combine_shell_output("out", "err", false), "out\nerr");
    assert_eq!(combine_shell_output("out\n", "err", false), "out\nerr");
    assert_eq!(combine_shell_output("", "err", false), "err");
    assert_eq!(combine_shell_output("out", "", true), "out\n[output truncated]\n");
    assert_eq!(combine_shell_output("", "", true), "[output truncated]\n");
    assert_eq!(combine_shell_output("", "", false), "");
}

#[test]
fn finished_tool_text() {
    assert_eq!(tool_completion_text(true, Some("done".to_string()), None), "done");
    assert_eq!(tool_completion_text(true, None, Some("x".to_string())), "Completed");
    assert_eq!(tool_completion_text(false, Some("r".to_string()), Some("denied".to_string())), "Error: denied");
    assert_eq!(tool_completion_text(false, None, None), "Error: ");
    assert!(is_file_edit_tool("MultiEdit"));
    assert!(is_file_edit_tool("toolu_WRITE_1"));
    assert!(!is_file_edit_tool("Read"));
}

#[test]
fn missing_tools_and_restore_start() {
    assert_eq!(missing_tool_message("Codex CLI", ToolNeed::UseModel), "Codex CLI is required to use this model.");
    assert_eq!(
        missing_tool_message("Gemini CLI", ToolNeed::OpenSavedSession),
        "Gemini CLI is required to open this workspace's saved session."
    );
    assert_eq!(plan_restore(0, true, Some(3)), RestoreStart::Splash);
    assert_eq!(plan_restore(2, false, Some(3)), RestoreStart::Skip);
    assert_eq!(plan_restore(2, true, None), RestoreStart::Skip);
    assert_eq!(plan_restore(2, true, Some(0)), RestoreStart::Sidebar);
    assert_eq!(plan_restore(2, true, Some(1)), RestoreStart::RestoreTabs);
}

#[test]
fn closing_a_workspaces_tabs() {
    let ws = vec![Some(1u128), Some(2), None, Some(1), Some(1), Some(3)];
    let order = tabs_to_close(&ws, 1);
    assert_eq!(order, vec![4, 3, 0]);
    let mut left = ws.clone();
    for i in order {
        left.remove(i);
    }
    assert_eq!(left, vec![Some(2), None, Some(3)]);
    assert!(tabs_to_close(&ws, 9).is_empty());
    assert_eq!(mode_after_closing(0, InputMode::Normal), Some(InputMode::SidebarNavigation));
    assert_eq!(mode_after_closing(0, InputMode::ShowingError), None);
    assert_eq!(mode_after_closing(2, InputMode::Normal), None);
}

#[test]
fn finding_a_workspaces_tab() {
    let ws = vec![None, Some(5u128), Some(7), Some(5)];
    assert_eq!(conduit_ui::tabs::find_tab_for_workspace(&ws, 5), Some(1));
    assert_eq!(conduit_ui::tabs::find_tab_for_workspace(&ws, 7), Some(2));
    assert_eq!(conduit_ui::tabs::find_tab_for_workspace(&ws, 9), None);
}
