use conduit_ui::persistence::{
    app_state_entries, collapsed_repos_text, restore_active_tab_index, restore_collapsed_repo_ids,
    restore_sidebar_visible, restore_tree_selection, save_report, split_text, SaveOutcome,
    SessionPersistenceReport, SessionStateSnapshot,
};
use conduit_ui::status::{format_session_status, CtrlCOutcome, EscOutcome, StatusState};

#[test]
fn report_counts_and_first_error() {
    let mut report = SessionPersistenceReport::new();
    assert!(!report.has_errors());
    assert_eq!(report.error_count(), 0);
    assert_eq!(report.first_error_or_unknown(), "unknown error");
    report.push("first".to_string());
    report.push("second".to_string());
    assert!(report.has_errors());
    assert_eq!(report.error_count(), 2);
    assert_eq!(report.first_error_or_unknown(), "first");
}

#[test]
fn uuid_text_is_hyphenated_lowercase() {
    let id: u128 = 0x67e5_5044_10b1_426f_9247_bb68_0e5f_e0c8;
    assert_eq!(collapsed_repos_text(&vec![id]), "67e55044-10b1-426f-9247-bb680e5fe0c8");
    assert_eq!(collapsed_repos_text(&vec![0]), "00000000-0000-0000-0000-000000000000");
    assert_eq!(collapsed_repos_text(&Vec::new()), "");
}

#[test]
fn uuid_round_trip_and_rejection() {
    let id: u128 = 0x0123_4567_89ab_cdef_0123_4567_89ab_cdef;
    let text = collapsed_repos_text(&vec![id]);
    assert_eq!(restore_collapsed_repo_ids(Some(&text)), vec![id]);
    let mixed = format!("not-a-uuid,{text}");
    assert_eq!(restore_collapsed_repo_ids(Some(&mixed)), vec![id]);
    assert_eq!(restore_collapsed_repo_ids(Some("nonsense")), Vec::<u128>::new());
}

#[test]
fn split_text_keeps_empty_parts() {
    assert_eq!(split_text("a,,b", ','), vec!["a".to_string(), String::new(), "b".to_string()]);
    assert_eq!(split_text("", ','), vec![String::new()]);
}

#[test]
fn state_entries_in_write_order() {
    let a: u128 = 1;
    let b: u128 = 0xffff_ffff_ffff_ffff_ffff_ffff_ffff_ffff;
    let snapshot = SessionStateSnapshot {
        active_tab_index: 3,
        sidebar_visible: false,
        tree_selected_index: 12,
        collapsed_repo_ids: vec![a, b],
    };
    let entries = app_state_entries(&snapshot);
    let expected = vec![
        ("active_tab_index".to_string(), "3".to_string()),
        ("sidebar_visible".to_string(), "false".to_string()),
        ("tree_selected_index".to_string(), "12".to_string()),
        (
            "tree_collapsed_repos".to_string(),
            "00000000-0000-0000-0000-000000000001,ffffffff-ffff-ffff-ffff-ffffffffffff".to_string(),
        ),
    ];
    assert_eq!(entries, expected);
}

#[test]
fn saved_state_reads_back() {
    let ids: Vec<u128> = vec![7, 42, 1 << 100];
    let text = collapsed_repos_text(&ids);
    assert_eq!(restore_collapsed_repo_ids(Some(&text)), ids);
    assert_eq!(restore_collapsed_repo_ids(Some("")), Vec::<u128>::new());
    assert_eq!(restore_collapsed_repo_ids(None), Vec::<u128>::new());
    assert_eq!(restore_sidebar_visible(Some("true"), false), true);
    assert_eq!(restore_sidebar_visible(Some("false"), true), false);
    assert_eq!(restore_sidebar_visible(None, true), true);
}

#[test]
fn restored_indices_are_clamped() {
    assert_eq!(restore_active_tab_index(Some("1"), 3), Some(1));
    assert_eq!(restore_active_tab_index(Some("9"), 3), Some(2));
    assert_eq!(restore_active_tab_index(Some("9"), 0), None);
    assert_eq!(restore_active_tab_index(Some("x"), 3), None);
    assert_eq!(restore_active_tab_index(None, 3), None);
    assert_eq!(restore_tree_selection(Some("5"), 3), Some(2));
    assert_eq!(restore_tree_selection(Some("5"), 0), Some(0));
    assert_eq!(restore_tree_selection(Some("1"), 3), Some(1));
    assert_eq!(restore_tree_selection(Some("?"), 3), None);
}

#[test]
fn save_report_messages_in_order() {
    let outcome = SaveOutcome {
        tab_store_available: true,
        state_store_available: true,
        tab_failures: vec![(2, "disk full".to_string())],
        active_tab_error: None,
        sidebar_error: Some("locked".to_string()),
        tree_selection_error: None,
        collapsed_error: None,
    };
    let report = save_report(&outcome);
    assert_eq!(
        report.errors,
        vec![
            "Failed to save session tab at index 2: disk full".to_string(),
            "Failed to save sidebar visibility: locked".to_string(),
        ]
    );
}

#[test]
fn save_report_without_stores() {
    let outcome = SaveOutcome {
        tab_store_available: false,
        state_store_available: true,
        tab_failures: Vec::new(),
        active_tab_error: None,
        sidebar_error: None,
        tree_selection_error: None,
        collapsed_error: None,
    };
    assert_eq!(
        save_report(&outcome).errors,
        vec!["Session tab DAO unavailable; skipping session persistence".to_string()]
    );
    let outcome = SaveOutcome { tab_store_available: true, state_store_available: false, ..outcome };
    assert_eq!(
        save_report(&outcome).errors,
        vec!["App state DAO unavailable; skipping session persistence".to_string()]
    );
}

#[test]
fn second_ctrl_c_quits_while_idle() {
    let mut s = StatusState::new();
    let first = s.handle_ctrl_c_press(1_000, false, "draft");
    assert!(matches!(first, CtrlCOutcome::ClearInput { save_to_history: true }));
    assert_eq!(s.footer_message.as_deref(), Some("Press Ctrl+C again to quit"));
    assert!(!s.should_quit);
    let second = s.handle_ctrl_c_press(1_300, false, "");
    assert!(matches!(second, CtrlCOutcome::Quit));
    assert!(s.should_quit);
}

#[test]
fn second_ctrl_c_interrupts_while_processing() {
    let mut s = StatusState::new();
    let first = s.handle_ctrl_c_press(0, true, "");
    assert!(matches!(first, CtrlCOutcome::WarnInterrupt));
    assert_eq!(s.footer_message.as_deref(), Some("Press Ctrl+C again to interrupt and quit"));
    let second = s.handle_ctrl_c_press(499, true, "");
    assert!(matches!(second, CtrlCOutcome::InterruptAndQuit));
    assert!(s.should_quit);
}

#[test]
fn late_ctrl_c_starts_over() {
    let mut s = StatusState::new();
    s.handle_ctrl_c_press(0, false, "   ");
    let again = s.handle_ctrl_c_press(600, false, "");
    assert!(matches!(again, CtrlCOutcome::ClearInput { save_to_history: false }));
    assert!(!s.should_quit);
}

#[test]
fn esc_twice_acts_then_disarms() {
    let mut s = StatusState::new();
    assert!(matches!(s.handle_esc_press(10, false), EscOutcome::Warn));
    assert_eq!(s.footer_message.as_deref(), Some("Press Esc again to clear"));
    assert!(matches!(s.handle_esc_press(20, false), EscOutcome::ClearInput));
    assert_eq!(s.footer_message, None);
    assert_eq!(s.last_esc_press, None);
    assert!(matches!(s.handle_esc_press(30, true), EscOutcome::Warn));
    assert_eq!(s.footer_message.as_deref(), Some("Press Esc again to interrupt"));
    assert!(matches!(s.handle_esc_press(40, true), EscOutcome::Interrupt));
}

#[test]
fn expired_press_clears_its_warning() {
    let mut s = StatusState::new();
    s.handle_ctrl_c_press(0, false, "");
    assert!(!s.expire_double_presses(400));
    assert_eq!(s.footer_message.as_deref(), Some("Press Ctrl+C again to quit"));
    assert!(s.expire_double_presses(501));
    assert_eq!(s.footer_message, None);
    assert_eq!(s.last_ctrl_c_press, None);
}

#[test]
fn busy_markers_drive_the_footer() {
    let mut s = StatusState::new();
    assert_eq!(s.busy_footer_message(), None);
    assert!(s.mark_workspace_busy(5));
    assert!(!s.mark_workspace_busy(5));
    s.sync_busy_footer_message();
    assert_eq!(s.footer_message.as_deref(), Some("Working on workspace..."));
    assert!(s.mark_repo_busy(9));
    assert_eq!(s.busy_footer_message().as_deref(), Some("Removing project..."));
    s.sync_busy_footer_message();
    assert_eq!(s.footer_message.as_deref(), Some("Removing project..."));
    assert!(s.clear_repo_busy(9));
    assert!(!s.clear_repo_busy(9));
    let (changed, _) = s.clear_workspace_busy(5);
    assert!(changed);
    s.sync_busy_footer_message();
    assert_eq!(s.footer_message, None);
    assert!(!s.busy_footer_message_active);
}

#[test]
fn busy_message_does_not_hide_a_timed_warning() {
    let mut s = StatusState::new();
    s.footer_message = Some("Saved".to_string());
    s.footer_expires_at = Some(10_000);
    assert!(s.mark_repo_action_busy(1));
    s.sync_busy_footer_message();
    assert_eq!(s.footer_message.as_deref(), Some("Saved"));
    assert_eq!(s.busy_footer_message.as_deref(), Some("Creating workspace..."));
    assert!(s.busy_footer_message_active);
    assert!(s.clear_repo_action_busy(1));
}

#[test]
fn session_status_report() {
    let s = format_session_status("Codex", Some("gpt-5"), None, 42, 8400, 20000, 3, Some("/tmp/w"));
    assert_eq!(
        s,
        "Agent:    Codex\nModel:    gpt-5\nSession:  —\nContext:  42% (8400 / 20000 tokens)\nTurns:    3\nDir:      /tmp/w"
    );
}
