use conduit_ui::agent::{reject_cross_agent_switch, reject_reasoning_change, AgentType, SessionActivity};
use conduit_ui::background::{fork_dialog, project_removed, remove_project_title};
use conduit_ui::command::{slash_command_action, ConduitCommand, InputMode, SlashAction};
use conduit_ui::dialogs::{
    answer_confirmation, change_workspace_mode, sync_input_mode_for_active_tab,
    workspace_mode_question, ConfirmAnswer, ConfirmationKind, ConfirmationStep,
    WorkspaceModeChoice,
};
use conduit_ui::events::{removal_confirmation_type, ConfirmationType};
use conduit_ui::screen::{DialogContext, ForkPreflight, PendingFork, RemovalSummary, Screen};

fn started() -> SessionActivity {
    SessionActivity {
        has_agent_session_id: false,
        has_resume_session_id: false,
        has_live_input: false,
        turn_count: 1,
    }
}

#[test]
fn test_sync_input_mode_for_active_tab_tracks_file_tab_transitions() {
    // Opening a file tab makes it active.
    let mode = sync_input_mode_for_active_tab(InputMode::Normal, true);
    assert_eq!(mode, InputMode::FileViewer);
    // Switching back to the session tab.
    let mode = sync_input_mode_for_active_tab(mode, false);
    assert_eq!(mode, InputMode::Normal);
}

#[test]
fn test_slash_command_action_maps_handoff_when_present() {
    assert_eq!(
        slash_command_action(ConduitCommand::Handoff),
        Some(SlashAction::HandoffSession)
    );
}

#[test]
fn test_remove_project_dialog_preflight_completed_shows_confirmation() {
    let repo_id: u128 = 0x1111;
    let mut screen = Screen::new(InputMode::Confirming, 10);
    screen.confirmation.show_loading(
        "Remove Project".to_string(),
        "Analyzing project workspaces...".to_string(),
        Some(DialogContext::RemoveProjectPreflightInProgress { repo_id }),
    );
    screen.on_removal_preflight(
        repo_id,
        Ok(RemovalSummary {
            repo_name: "demo-repo".to_string(),
            warnings: vec!["2 workspaces will be archived".to_string()],
            has_dirty: false,
            has_unmerged: false,
            workspace_count: 2,
        }),
    );
    let dialog = &screen.confirmation;
    assert!(dialog.visible);
    assert!(!dialog.loading);
    assert_eq!(screen.mode, InputMode::Confirming);
    assert!(matches!(dialog.context, Some(DialogContext::RemoveProject { repo_id: id }) if id == repo_id));
    assert_eq!(dialog.title, "Remove \"demo-repo\"?");
    assert_eq!(dialog.message, "This will archive all workspaces and remove the project.");
    assert_eq!(dialog.warnings, vec!["2 workspaces will be archived".to_string()]);
    assert_eq!(dialog.confirmation, ConfirmationType::Warning);
    assert_eq!(dialog.confirm_text, "Remove");
    assert_eq!(remove_project_title("demo-repo"), "Remove \"demo-repo\"?");
    assert_eq!(removal_confirmation_type(false, false, 2), ConfirmationType::Warning);
}

#[test]
fn test_fork_session_dialog_preflight_completed_shows_confirmation() {
    let parent: u128 = 0x2222;
    let mut screen = Screen::new(InputMode::Confirming, 10);
    screen.confirmation.show_loading(
        "Fork Session".to_string(),
        "Checking workspace...".to_string(),
        Some(DialogContext::ForkSessionPreflightInProgress { parent_workspace_id: parent }),
    );
    screen.pending_fork = Some(PendingFork { parent_workspace_id: parent, token_estimate: 1600, context_window: 2000 });
    // 1600 of 2000 tokens: 80 percent of the window.
    screen.on_fork_preflight(
        parent,
        Ok(ForkPreflight {
            base_branch: "feature/branch".to_string(),
            dirty_warning: Some("Uncommitted changes detected".to_string()),
        }),
        false,
        true,
        "80",
    );
    let dialog = &screen.confirmation;
    assert!(dialog.visible);
    assert!(!dialog.loading);
    assert_eq!(screen.mode, InputMode::Confirming);
    assert!(matches!(
        &dialog.context,
        Some(DialogContext::ForkSession { parent_workspace_id, base_branch })
            if *parent_workspace_id == parent && base_branch == "feature/branch"
    ));
    assert_eq!(dialog.title, "Fork session?");
    assert_eq!(dialog.confirm_text, "Fork");
    assert_eq!(
        dialog.message,
        "Fork this session into a new workspace based on branch \"feature/branch\".\nSeed size: 1600 / 2000 tokens (~80%)."
    );
    assert_eq!(
        dialog.warnings,
        vec![
            "Uncommitted changes detected".to_string(),
            "Commit before forking to preserve changes.".to_string(),
            "Seed uses ~80% of context window (1600 / 2000).".to_string(),
        ]
    );
    assert_eq!(dialog.confirmation, ConfirmationType::Warning);
    let direct = fork_dialog(
        "feature/branch",
        Some("Uncommitted changes detected".to_string()),
        false,
        true,
        1600,
        2000,
        "80",
    );
    assert_eq!(direct.message, dialog.message);
}

#[test]
fn test_project_removed_errors_keep_error_dialog_focused() {
    let mut screen = Screen::new(InputMode::SidebarNavigation, 10);
    let errors = vec!["Failed to canonicalize workspaces dir: not found".to_string()];
    let after = screen.on_project_removed(&errors, 0, 0);
    assert_eq!(after.mode, None);
    assert!(screen.error.visible);
    assert!(screen.error.details.is_some());
    assert_eq!(screen.error.title, "Project Removal Errors");
    assert_eq!(screen.error.message, "Some operations failed during project removal");
    assert_eq!(screen.error.details.as_deref(), Some("Failed to canonicalize workspaces dir: not found"));
    assert_eq!(screen.mode, InputMode::ShowingError);
    let clean = project_removed(0, 0, false);
    assert_eq!(clean.mode, Some(InputMode::Normal));
}

#[test]
fn test_handle_confirm_action_selecting_reasoning_blocked_after_session_started() {
    let refusal = reject_reasoning_change(&started()).expect("expected error message");
    assert!(refusal.contains("Changing reasoning effort after a session has started"));
}

#[test]
fn test_handle_confirm_action_blocks_cross_agent_switch_after_session_started() {
    let refusal = reject_cross_agent_switch(AgentType::Codex, AgentType::Claude, &started())
        .expect("expected error message");
    assert!(refusal.contains("Switching agent type after a session has started"));
}

#[test]
fn loading_preflights_ignore_cancel() {
    assert_eq!(
        answer_confirmation(
            ConfirmAnswer::No,
            true,
            true,
            Some(ConfirmationKind::RemoveProjectPreflightInProgress),
            false
        ),
        ConfirmationStep::Ignore
    );
    assert_eq!(
        answer_confirmation(
            ConfirmAnswer::No,
            true,
            false,
            Some(ConfirmationKind::ForkSessionPreflightInProgress),
            true
        ),
        ConfirmationStep::Ignore
    );
}

#[test]
fn workspace_mode_changes() {
    let w = WorkspaceModeChoice::Worktree;
    let c = WorkspaceModeChoice::Checkout;
    assert_eq!(change_workspace_mode(Some(w), w, 3), Ok(false));
    assert_eq!(
        change_workspace_mode(Some(w), c, 3),
        Err("Cannot change workspace mode while active workspaces exist.".to_string())
    );
    assert_eq!(change_workspace_mode(None, c, 0), Ok(true));
    let (text, confirm) = workspace_mode_question("app", false);
    assert_eq!(
        text,
        "Choose how Conduit should create workspaces for \"app\".\n\nYou can change this later when no active workspaces exist."
    );
    assert!(!confirm);
}
