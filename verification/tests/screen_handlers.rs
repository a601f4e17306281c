use conduit_ui::events::AgentEventKind;
use conduit_ui::screen::route_agent_event;
use conduit_ui::agent::AgentType;
use conduit_ui::command::{CommandOutcome, InputMode};
use conduit_ui::dialogs::ModelPickerContext;
use conduit_ui::events::ConfirmationType;
use conduit_ui::persistence::SessionPersistenceReport;
use conduit_ui::queue::{QueueDelivery, QueueMode, QueuedMessage, QueuedMessageMode};
use conduit_ui::screen::{
    action_step, choose_handoff_target, runs_after_command, ActionKind, ActionStep, DialogContext,
    ForkPreflight, PendingFork, RemovalSummary, RequiredTool, Screen, Tab,
};
use conduit_ui::session::{
    drain_session_queue, submit_prompt, switch_session_model, ChatEntry, ChatRole, ChatSession,
    Effect,
};
use conduit_ui::workflow::{pr_preflight_outcome, PrPreflight};

fn session(agent: AgentType) -> ChatSession {
    ChatSession {
        id: 7,
        agent,
        model: Some("opus".to_string()),
        model_invalid: false,
        agent_session_id: None,
        resume_session_id: None,
        has_live_input: false,
        turn_count: 0,
        title: None,
        title_generation_pending: false,
        is_processing: false,
        pending_user_message: None,
        chat: Vec::new(),
        queue: Vec::new(),
        queue_selection: None,
    }
}

fn last_chat(s: &ChatSession) -> (ChatRole, String) {
    let e: &ChatEntry = s.chat.last().expect("chat line");
    (e.role, e.content.clone())
}

fn loading_removal(repo_id: u128) -> Screen {
    let mut screen = Screen::new(InputMode::Confirming, 10);
    screen.confirmation.show_loading(
        "Remove Project".to_string(),
        "Analyzing project workspaces...".to_string(),
        Some(DialogContext::RemoveProjectPreflightInProgress { repo_id }),
    );
    screen
}

fn loading_fork(parent: u128) -> Screen {
    let mut screen = Screen::new(InputMode::Confirming, 10);
    screen.confirmation.show_loading(
        "Fork Session".to_string(),
        "Checking workspace...".to_string(),
        Some(DialogContext::ForkSessionPreflightInProgress { parent_workspace_id: parent }),
    );
    screen
}

fn summary() -> RemovalSummary {
    RemovalSummary {
        repo_name: "demo".to_string(),
        warnings: Vec::new(),
        has_dirty: true,
        has_unmerged: true,
        workspace_count: 1,
    }
}

#[test]
fn removal_preflight_for_another_project_is_dropped() {
    let mut screen = loading_removal(1);
    screen.on_removal_preflight(2, Ok(summary()));
    assert!(screen.confirmation.loading);
    assert!(matches!(
        screen.confirmation.context,
        Some(DialogContext::RemoveProjectPreflightInProgress { repo_id: 1 })
    ));
    assert_eq!(screen.mode, InputMode::Confirming);
    assert!(!screen.removal_preflight_running(2));
    assert!(screen.removal_preflight_running(1));
}

#[test]
fn removal_preflight_with_dirty_and_unmerged_work_is_dangerous() {
    let mut screen = loading_removal(1);
    screen.on_removal_preflight(1, Ok(summary()));
    assert_eq!(screen.confirmation.confirmation, ConfirmationType::Danger);
    assert_eq!(screen.confirmation.title, "Remove \"demo\"?");
}

#[test]
fn failed_removal_preflight_closes_dialog_and_shows_error() {
    let mut screen = loading_removal(1);
    screen.on_removal_preflight(1, Err("disk gone".to_string()));
    assert!(!screen.confirmation.visible);
    assert!(!screen.confirmation.loading);
    assert!(screen.confirmation.context.is_none());
    assert!(screen.error.visible);
    assert_eq!(screen.error.title, "Project Removal Failed");
    assert_eq!(screen.error.message, "disk gone");
    assert!(screen.error.details.is_none());
    assert_eq!(screen.mode, InputMode::ShowingError);
}

fn fork_preflight() -> ForkPreflight {
    ForkPreflight { base_branch: "main".to_string(), dirty_warning: None }
}

#[test]
fn fork_preflight_without_pending_fork_closes_dialog() {
    let mut screen = loading_fork(5);
    screen.on_fork_preflight(5, Ok(fork_preflight()), false, false, "10");
    assert!(!screen.confirmation.visible);
    assert_eq!(screen.mode, InputMode::Normal);
}

#[test]
fn fork_preflight_for_another_pending_parent_changes_nothing() {
    let mut screen = loading_fork(5);
    screen.pending_fork = Some(PendingFork { parent_workspace_id: 6, token_estimate: 10, context_window: 100 });
    screen.on_fork_preflight(5, Ok(fork_preflight()), false, false, "10");
    assert!(screen.confirmation.visible);
    assert!(screen.confirmation.loading);
    assert_eq!(screen.mode, InputMode::Confirming);
}

#[test]
fn fork_preflight_overflowing_window_is_dangerous() {
    let mut screen = loading_fork(5);
    screen.pending_fork = Some(PendingFork { parent_workspace_id: 5, token_estimate: 2500, context_window: 2000 });
    screen.on_fork_preflight(5, Ok(fork_preflight()), true, true, "125");
    assert_eq!(screen.confirmation.confirmation, ConfirmationType::Danger);
    assert_eq!(
        screen.confirmation.warnings,
        vec!["Seed exceeds context window (2500 / 2000 tokens, ~125%).".to_string()]
    );
    assert_eq!(screen.pending_fork.map(|p| p.parent_workspace_id), Some(5));
}

#[test]
fn failed_fork_preflight_drops_pending_fork() {
    let mut screen = loading_fork(5);
    screen.pending_fork = Some(PendingFork { parent_workspace_id: 5, token_estimate: 10, context_window: 100 });
    screen.on_fork_preflight(5, Err("no branch".to_string()), false, false, "10");
    assert!(screen.pending_fork.is_none());
    assert!(!screen.confirmation.visible);
    assert_eq!(screen.error.title, "Fork Failed");
    assert_eq!(screen.error.message, "no branch");
    assert_eq!(screen.mode, InputMode::ShowingError);
}

#[test]
fn stale_fork_preflight_is_dropped() {
    let mut screen = Screen::new(InputMode::Normal, 10);
    screen.on_fork_preflight(5, Err("late".to_string()), false, false, "10");
    assert!(!screen.error.visible);
    assert_eq!(screen.mode, InputMode::Normal);
}

#[test]
fn project_removal_errors_are_joined_one_per_line() {
    let mut screen = Screen::new(InputMode::SidebarNavigation, 10);
    let errors = vec!["first".to_string(), "second".to_string()];
    let after = screen.on_project_removed(&errors, 3, 5);
    assert_eq!(after.selection, 2);
    assert_eq!(screen.error.details.as_deref(), Some("first\nsecond"));
    assert_eq!(screen.mode, InputMode::ShowingError);
}

#[test]
fn project_removal_without_errors_returns_to_sidebar() {
    let mut screen = Screen::new(InputMode::Confirming, 10);
    let after = screen.on_project_removed(&Vec::new(), 0, 2);
    assert_eq!(after.selection, 0);
    assert!(!screen.error.visible);
    assert_eq!(screen.mode, InputMode::SidebarNavigation);
}

#[test]
fn click_during_blocking_preflight_changes_nothing() {
    let mut screen = loading_removal(9);
    assert!(screen.click_while_confirming());
    assert!(screen.confirmation.visible);
    assert!(screen.confirmation.loading);
    assert_eq!(screen.mode, InputMode::Confirming);
}

#[test]
fn click_dismisses_fork_question_and_drops_pending_fork() {
    let mut screen = Screen::new(InputMode::Confirming, 10);
    screen.pending_fork = Some(PendingFork { parent_workspace_id: 4, token_estimate: 1, context_window: 2 });
    screen.confirmation.show(
        "Fork session?".to_string(),
        "m".to_string(),
        Vec::new(),
        ConfirmationType::Info,
        "Fork".to_string(),
        Some(DialogContext::ForkSession { parent_workspace_id: 4, base_branch: "main".to_string() }),
    );
    assert!(screen.click_while_confirming());
    assert!(!screen.confirmation.visible);
    assert!(screen.confirmation.context.is_none());
    assert!(screen.pending_fork.is_none());
    assert_eq!(screen.mode, InputMode::Normal);
}

#[test]
fn click_dismisses_removal_question_back_to_sidebar() {
    let mut screen = Screen::new(InputMode::Confirming, 10);
    screen.confirmation.show(
        "Remove?".to_string(),
        "m".to_string(),
        Vec::new(),
        ConfirmationType::Info,
        "Remove".to_string(),
        Some(DialogContext::RemoveProject { repo_id: 3 }),
    );
    assert!(screen.click_while_confirming());
    assert_eq!(screen.mode, InputMode::SidebarNavigation);
}

#[test]
fn click_outside_confirmation_mode_is_not_taken() {
    let mut screen = Screen::new(InputMode::Normal, 10);
    assert!(!screen.click_while_confirming());
    assert_eq!(screen.mode, InputMode::Normal);
}

fn preflight() -> PrPreflight {
    PrPreflight {
        gh_installed: true,
        gh_authenticated: true,
        on_main_branch: false,
        branch_name: "feature".to_string(),
        target_branch: "main".to_string(),
        uncommitted_count: 2,
        has_upstream: false,
        existing_pr: None,
    }
}

#[test]
fn missing_github_cli_shows_missing_tool_dialog() {
    let mut screen = Screen::new(InputMode::Confirming, 10);
    screen.overlays_open = true;
    let mut p = preflight();
    p.gh_installed = false;
    screen.apply_pr_outcome(pr_preflight_outcome(&p), 0, "/w".to_string());
    assert!(screen.missing_tool.visible);
    assert_eq!(screen.missing_tool.tool, Some(RequiredTool::GitHubCli));
    assert_eq!(screen.missing_tool.context.as_deref(), Some("GitHub CLI (gh) is required for PR operations."));
    assert_eq!(screen.mode, InputMode::MissingTool);
    assert!(!screen.overlays_open);
    assert!(!screen.confirmation.visible);
}

#[test]
fn unauthenticated_github_cli_shows_login_hint() {
    let mut screen = Screen::new(InputMode::Confirming, 10);
    let mut p = preflight();
    p.gh_authenticated = false;
    screen.apply_pr_outcome(pr_preflight_outcome(&p), 0, "/w".to_string());
    assert_eq!(screen.error.title, "Not Authenticated");
    assert_eq!(screen.error.message, "GitHub CLI is not authenticated.");
    assert_eq!(screen.error.details.as_deref(), Some("Run: gh auth login"));
    assert_eq!(screen.mode, InputMode::ShowingError);
}

#[test]
fn pull_request_from_main_branch_is_refused() {
    let mut screen = Screen::new(InputMode::Confirming, 10);
    let mut p = preflight();
    p.on_main_branch = true;
    p.branch_name = "main".to_string();
    screen.apply_pr_outcome(pr_preflight_outcome(&p), 0, "/w".to_string());
    assert_eq!(screen.error.title, "Cannot Create PR");
    assert_eq!(screen.error.message, "You're on the 'main' branch. Create a feature branch first.");
}

#[test]
fn existing_pull_request_is_offered_for_opening() {
    let mut screen = Screen::new(InputMode::Confirming, 10);
    let mut p = preflight();
    p.existing_pr = Some((true, Some(12), Some("https://x/pr/12".to_string())));
    screen.apply_pr_outcome(pr_preflight_outcome(&p), 0, "/w".to_string());
    assert_eq!(screen.confirmation.title, "Pull Request Exists");
    assert_eq!(screen.confirmation.message, "PR #12 already exists for branch 'feature'.\n\nOpen in browser?");
    assert_eq!(screen.confirmation.confirm_text, "Open PR");
    assert!(screen.confirmation.warnings.is_empty());
    assert!(matches!(
        &screen.confirmation.context,
        Some(DialogContext::OpenExistingPr { working_dir, pr_url }) if working_dir == "/w" && pr_url == "https://x/pr/12"
    ));
    assert_eq!(screen.mode, InputMode::Confirming);
}

#[test]
fn new_pull_request_is_confirmed_with_warnings() {
    let mut screen = Screen::new(InputMode::Confirming, 10);
    screen.apply_pr_outcome(pr_preflight_outcome(&preflight()), 3, "/w".to_string());
    assert_eq!(screen.confirmation.title, "Create Pull Request");
    assert_eq!(screen.confirmation.message, "Branch: feature\nTarget: main");
    assert_eq!(
        screen.confirmation.warnings,
        vec!["2 file(s) will be auto-committed".to_string(), "Branch will be pushed to remote".to_string()]
    );
    assert_eq!(screen.confirmation.confirm_text, "Create PR");
    assert!(matches!(
        &screen.confirmation.context,
        Some(DialogContext::CreatePullRequest { tab_index: 3, working_dir }) if working_dir == "/w"
    ));
}

#[test]
fn busy_session_keeps_model_picker_closed() {
    let mut screen = Screen::new(InputMode::Normal, 10);
    assert!(!screen.click_model_area(true, vec![AgentType::Codex], AgentType::Codex, true));
    let footer = screen.footer.as_ref().expect("footer");
    assert_eq!(footer.text, "Finish the current response before switching models");
    assert_eq!(footer.seconds, 3);
    assert!(screen.model_picker.is_none());
}

#[test]
fn no_provider_points_to_provider_settings() {
    let mut screen = Screen::new(InputMode::Normal, 10);
    assert!(!screen.click_model_area(false, Vec::new(), AgentType::Claude, false));
    let footer = screen.footer.as_ref().expect("footer");
    assert_eq!(footer.text, "No enabled providers available. Use /providers.");
    assert_eq!(footer.seconds, 4);
    assert_eq!(screen.mode, InputMode::Normal);
}

#[test]
fn test_handle_status_bar_click_model_picker_respects_enabled_providers() {
    let mut screen = Screen::new(InputMode::Normal, 10);
    assert!(screen.click_model_area(false, vec![AgentType::Codex], AgentType::Codex, true));
    let picker = screen.model_picker.as_ref().expect("picker");
    assert_eq!(picker.providers, vec![AgentType::Codex]);
    assert!(!picker.providers.contains(&AgentType::Claude));
    assert_eq!(picker.context, ModelPickerContext::SessionSelection);
    assert_eq!(screen.mode, InputMode::SelectingModel);
}

#[test]
fn model_picker_adds_installed_session_provider() {
    let mut screen = Screen::new(InputMode::Normal, 10);
    assert!(screen.click_model_area(false, vec![AgentType::Codex], AgentType::Claude, true));
    assert_eq!(screen.model_picker.as_ref().map(|p| p.providers.clone()), Some(vec![AgentType::Codex, AgentType::Claude]));
}

#[test]
fn open_without_path_shows_usage() {
    let mut screen = Screen::new(InputMode::Command, 10);
    screen.command_buffer = "open".to_string();
    let o = screen.run_command(true);
    assert!(matches!(o, CommandOutcome::OpenUsage));
    assert!(screen.command_buffer.is_empty());
    assert_eq!(screen.mode, InputMode::Normal);
    let footer = screen.footer.as_ref().expect("footer");
    assert_eq!(footer.text, "Usage: :open <path>");
    assert_eq!(footer.seconds, 3);
}

#[test]
fn help_command_shows_key_bindings() {
    let mut screen = Screen::new(InputMode::Command, 10);
    screen.command_buffer = "  HELP ".to_string();
    screen.overlays_open = true;
    let o = screen.run_command(true);
    assert!(matches!(o, CommandOutcome::ShowHelp));
    assert!(screen.help_visible);
    assert!(!screen.overlays_open);
    assert_eq!(screen.mode, InputMode::ShowingHelp);
    assert!(screen.command_buffer.is_empty());
}

#[test]
fn home_path_without_home_directory_is_refused() {
    let mut screen = Screen::new(InputMode::Command, 10);
    screen.command_buffer = "open ~/notes.md".to_string();
    let o = screen.run_command(false);
    assert!(matches!(o, CommandOutcome::OpenPath { .. }));
    assert_eq!(screen.footer.as_ref().map(|f| f.text.as_str()), Some("Home directory not found; cannot expand ~"));
}

#[test]
fn action_command_only_clears_the_line() {
    let mut screen = Screen::new(InputMode::Command, 10);
    screen.command_buffer = "Q".to_string();
    let o = screen.run_command(true);
    assert!(matches!(o, CommandOutcome::Quit));
    assert!(screen.footer.is_none());
    assert_eq!(screen.mode, InputMode::Normal);
    assert!(screen.command_buffer.is_empty());
}

#[test]
fn reopening_workspace_switches_to_its_first_tab() {
    let mut screen = Screen::new(InputMode::SidebarNavigation, 10);
    screen.sidebar_visible = true;
    screen.tabs = vec![
        Tab { session_id: 1, workspace_id: Some(10) },
        Tab { session_id: 2, workspace_id: Some(20) },
        Tab { session_id: 3, workspace_id: Some(20) },
    ];
    assert!(screen.reopen_workspace(20, true));
    assert_eq!(screen.active_tab, 1);
    assert_eq!(screen.tabs.len(), 3);
    assert!(!screen.sidebar_visible);
    assert_eq!(screen.mode, InputMode::Normal);
    assert!(screen.reopen_workspace(20, false));
    assert_eq!(screen.active_tab, 1);
}

#[test]
fn opening_new_workspace_changes_nothing_here() {
    let mut screen = Screen::new(InputMode::SidebarNavigation, 10);
    screen.tabs = vec![Tab { session_id: 1, workspace_id: Some(10) }];
    assert!(!screen.reopen_workspace(30, true));
    assert_eq!(screen.active_tab, 0);
    assert_eq!(screen.mode, InputMode::SidebarNavigation);
}

#[test]
fn handoff_opens_tab_and_starts_chosen_agent() {
    let mut screen = Screen::new(InputMode::SelectingModel, 10);
    screen.pending_handoff = true;
    screen.tabs = vec![Tab { session_id: 1, workspace_id: Some(10) }];
    let effect = screen.open_handoff_tab(2, Some(10), AgentType::Codex, "[CONDUIT_HANDOFF]\nReady".to_string());
    assert_eq!(screen.tabs.len(), 2);
    assert_eq!(screen.active_tab, 1);
    assert!(!screen.pending_handoff);
    assert_eq!(screen.mode, InputMode::Normal);
    match effect {
        Effect::StartAgent { session_id, agent, prompt, resume_session_id } => {
            assert_eq!(session_id, 2);
            assert_eq!(agent, AgentType::Codex);
            assert_eq!(prompt, "[CONDUIT_HANDOFF]\nReady");
            assert!(resume_session_id.is_none());
        }
        _ => panic!("expected an agent start"),
    }
}

#[test]
fn handoff_to_disabled_provider_falls_back_with_default_model() {
    let order = vec![AgentType::Claude, AgentType::Codex, AgentType::Gemini];
    let r = choose_handoff_target(AgentType::Claude, &vec![AgentType::Codex], AgentType::Claude, &order, AgentType::Codex);
    assert_eq!(r, (AgentType::Codex, false));
    let kept = choose_handoff_target(AgentType::Codex, &vec![AgentType::Codex], AgentType::Claude, &order, AgentType::Codex);
    assert_eq!(kept, (AgentType::Codex, true));
}

#[test]
fn palette_confirm_runs_chosen_action_once() {
    assert_eq!(
        action_step(ActionKind::Confirm, InputMode::CommandPalette, false, Some(ActionKind::Other)),
        ActionStep::RunFromPalette { run: true }
    );
    assert_eq!(
        action_step(ActionKind::Confirm, InputMode::CommandPalette, false, Some(ActionKind::Confirm)),
        ActionStep::RunFromPalette { run: false }
    );
    assert_eq!(
        action_step(ActionKind::Confirm, InputMode::CommandPalette, false, Some(ActionKind::OpenCommandPalette)),
        ActionStep::RunFromPalette { run: false }
    );
    assert_eq!(action_step(ActionKind::Confirm, InputMode::CommandPalette, false, None), ActionStep::Ignore);
    assert_eq!(action_step(ActionKind::Confirm, InputMode::CommandPalette, true, Some(ActionKind::Other)), ActionStep::Dispatch);
    assert_eq!(action_step(ActionKind::ExecuteCommand, InputMode::Command, false, None), ActionStep::RunCommand);
    assert_eq!(action_step(ActionKind::ExecuteCommand, InputMode::Normal, false, None), ActionStep::Ignore);
    assert!(runs_after_command(Some(ActionKind::Other)));
    assert!(!runs_after_command(Some(ActionKind::ExecuteCommand)));
    assert!(!runs_after_command(None));
}

#[test]
fn missing_working_directory_only_reports_it() {
    let mut s = session(AgentType::Claude);
    s.resume_session_id = Some("saved".to_string());
    let fx = submit_prompt(&mut s, "hi".to_string(), "hi".to_string(), 0, &Vec::new(), false, false, "/gone", false);
    assert!(fx.is_empty());
    assert_eq!(last_chat(&s), (ChatRole::Error, "Working directory does not exist: /gone".to_string()));
    assert_eq!(s.chat.len(), 1);
    assert!(!s.is_processing);
    assert_eq!(s.resume_session_id.as_deref(), Some("saved"));
}

#[test]
fn missing_model_marks_it_invalid() {
    let mut s = session(AgentType::Claude);
    s.model = None;
    s.resume_session_id = Some("saved".to_string());
    let fx = submit_prompt(&mut s, "hi".to_string(), "hi".to_string(), 0, &Vec::new(), false, false, "/w", true);
    assert!(fx.is_empty());
    assert!(s.model_invalid);
    assert_eq!(last_chat(&s), (ChatRole::Error, "Select a model to continue.".to_string()));
    assert!(!s.is_processing);
    assert_eq!(s.resume_session_id.as_deref(), Some("saved"));
}

#[test]
fn starting_agent_consumes_resume_id_and_requests_title() {
    let mut s = session(AgentType::Claude);
    s.resume_session_id = Some("saved".to_string());
    let fx = submit_prompt(&mut s, "Fix the bug".to_string(), "Fix the bug".to_string(), 0, &Vec::new(), false, false, "/w", true);
    assert_eq!(fx.len(), 2);
    match &fx[0] {
        Effect::StartAgent { session_id, agent, prompt, resume_session_id } => {
            assert_eq!(*session_id, 7);
            assert_eq!(*agent, AgentType::Claude);
            assert_eq!(prompt, "Fix the bug");
            assert_eq!(resume_session_id.as_deref(), Some("saved"));
        }
        _ => panic!("expected an agent start"),
    }
    match &fx[1] {
        Effect::GenerateTitleAndBranch { session_id, user_message } => {
            assert_eq!(*session_id, 7);
            assert_eq!(user_message, "Fix the bug");
        }
        _ => panic!("expected a title request"),
    }
    assert!(s.resume_session_id.is_none());
    assert!(s.is_processing);
    assert!(s.title_generation_pending);
    assert_eq!(s.pending_user_message.as_deref(), Some("Fix the bug"));
    assert_eq!(last_chat(&s), (ChatRole::User, "Fix the bug".to_string()));
}

#[test]
fn second_prompt_requests_no_title() {
    let mut s = session(AgentType::Codex);
    s.chat.push(ChatEntry { role: ChatRole::User, content: "earlier".to_string() });
    let fx = submit_prompt(&mut s, "again".to_string(), "again".to_string(), 0, &Vec::new(), false, false, "/w", true);
    assert_eq!(fx.len(), 1);
    assert!(matches!(&fx[0], Effect::StartAgent { resume_session_id: None, .. }));
    assert!(!s.title_generation_pending);
}

#[test]
fn hidden_prompt_is_not_shown_and_requests_no_title() {
    let mut s = session(AgentType::Claude);
    let fx = submit_prompt(&mut s, "seed".to_string(), "seed".to_string(), 0, &Vec::new(), true, false, "/w", true);
    assert_eq!(fx.len(), 1);
    assert!(s.chat.is_empty());
    assert!(s.pending_user_message.is_none());
    assert!(s.is_processing);
}

#[test]
fn live_agent_receives_prompt_without_start() {
    let mut s = session(AgentType::Codex);
    s.has_live_input = true;
    s.resume_session_id = Some("saved".to_string());
    let fx = submit_prompt(&mut s, "more".to_string(), "more".to_string(), 0, &Vec::new(), false, false, "/w", true);
    assert_eq!(fx.len(), 1);
    assert!(matches!(&fx[0], Effect::SendToLiveAgent { session_id: 7, prompt } if prompt == "more"));
    assert_eq!(s.resume_session_id.as_deref(), Some("saved"));
    assert!(s.is_processing);
}

#[test]
fn refused_images_stop_processing() {
    let mut s = session(AgentType::Gemini);
    s.is_processing = true;
    let fx = submit_prompt(&mut s, "look".to_string(), "look".to_string(), 1, &Vec::new(), false, false, "/w", true);
    assert!(fx.is_empty());
    assert!(!s.is_processing);
    assert!(s.pending_user_message.is_none());
    assert_eq!(s.chat.len(), 2);
    assert_eq!(last_chat(&s), (ChatRole::Error, "Image attachments aren't supported for Gemini in Conduit yet.".to_string()));
}

#[test]
fn prompt_empty_after_placeholders_is_refused() {
    let mut s = session(AgentType::Codex);
    let placeholders = vec!["[Image #1]".to_string()];
    let fx = submit_prompt(&mut s, "[Image #1]".to_string(), "[Image #1]".to_string(), 0, &placeholders, false, false, "/w", true);
    assert!(fx.is_empty());
    assert!(!s.is_processing);
    assert_eq!(last_chat(&s), (ChatRole::Error, "Cannot submit: prompt is empty after processing".to_string()));
}

#[test]
fn test_handle_confirm_action_blocks_cross_agent_switch_after_session_started_keeps_picker() {
    let mut screen = Screen::new(InputMode::SelectingModel, 10);
    screen.click_model_area(false, vec![AgentType::Codex, AgentType::Gemini], AgentType::Codex, true);
    let mut s = session(AgentType::Codex);
    s.turn_count = 1;
    assert!(!switch_session_model(&mut screen, &mut s, AgentType::Gemini, "pro".to_string(), "Gemini", "Pro 2.5"));
    assert_eq!(screen.mode, InputMode::SelectingModel);
    assert!(screen.model_picker.is_some());
    assert_eq!(s.agent, AgentType::Codex);
    let (role, content) = last_chat(&s);
    assert_eq!(role, ChatRole::Error);
    assert!(content.contains("Switching agent type after a session has started"));
}

#[test]
fn model_switch_in_fresh_session_closes_picker() {
    let mut screen = Screen::new(InputMode::SelectingModel, 10);
    screen.click_model_area(false, vec![AgentType::Codex, AgentType::Gemini], AgentType::Codex, true);
    let mut s = session(AgentType::Codex);
    assert!(switch_session_model(&mut screen, &mut s, AgentType::Gemini, "pro".to_string(), "Gemini", "Pro 2.5"));
    assert_eq!(screen.mode, InputMode::Normal);
    assert!(screen.model_picker.is_none());
    assert_eq!(s.agent, AgentType::Gemini);
    assert_eq!(s.model.as_deref(), Some("pro"));
    assert_eq!(last_chat(&s), (ChatRole::System, "Switched to Gemini with model: Pro 2.5".to_string()));
}

fn queued(id: u128, mode: QueuedMessageMode) -> QueuedMessage {
    QueuedMessage { id, mode, text: format!("m{id}"), images: Vec::new(), created_at_ms: 0 }
}

#[test]
fn draining_queue_resets_its_selection() {
    let mut s = session(AgentType::Codex);
    s.queue = vec![queued(1, QueuedMessageMode::FollowUp), queued(2, QueuedMessageMode::Steer)];
    s.queue_selection = Some(1);
    let sent = drain_session_queue(&mut s, QueueMode::OneAtATime, QueueDelivery::Concat);
    assert_eq!(sent.iter().map(|m| m.id).collect::<Vec<_>>(), vec![2]);
    assert_eq!(s.queue.iter().map(|m| m.id).collect::<Vec<_>>(), vec![1]);
    assert!(s.queue_selection.is_none());
}

#[test]
fn draining_empty_queue_keeps_selection() {
    let mut s = session(AgentType::Codex);
    s.queue_selection = Some(0);
    let sent = drain_session_queue(&mut s, QueueMode::All, QueueDelivery::Separate);
    assert!(sent.is_empty());
    assert_eq!(s.queue_selection, Some(0));
}

#[test]
fn report_counts_each_push_and_keeps_the_first() {
    let mut report = SessionPersistenceReport::new();
    report.push("a".to_string());
    report.push("b".to_string());
    report.push("c".to_string());
    assert_eq!(report.error_count(), 3);
    assert!(report.has_errors());
    assert_eq!(report.first_error_or_unknown(), "a");
}

#[test]
fn tabs_open_up_to_the_limit_of_ten() {
    let mut screen = Screen::new(InputMode::Normal, 10);
    for k in 0..10u128 {
        assert!(screen.open_tab(k, Some(100 + k)));
        assert_eq!(screen.active_tab, k as usize);
    }
    assert_eq!(screen.tabs.len(), 10);
    assert!(!screen.open_tab(99, None));
    assert_eq!(screen.tabs.len(), 10);
    assert_eq!(screen.active_tab, 9);
    assert_eq!(screen.error.title, "Too many tabs");
    assert_eq!(
        screen.error.message,
        "Maximum number of tabs reached. Close a tab before opening another workspace."
    );
    assert_eq!(screen.mode, InputMode::ShowingError);
}

#[test]
fn events_find_their_session_after_a_tab_closes() {
    let mut screen = Screen::new(InputMode::Normal, 10);
    assert!(screen.open_tab(1, None));
    assert!(screen.open_tab(2, None));
    assert_eq!(screen.tab_of_session(2), Some(1));
    screen.tabs.remove(0);
    assert_eq!(screen.tab_of_session(2), Some(0));
    assert_eq!(screen.tab_of_session(1), None);
}

#[test]
fn confirming_palette_entry_closes_palette_before_it_runs() {
    let mut screen = Screen::new(InputMode::CommandPalette, 10);
    screen.palette_open = true;
    let step = screen.step_action(ActionKind::Confirm, false, Some(ActionKind::Other));
    assert_eq!(step, ActionStep::RunFromPalette { run: true });
    assert!(!screen.palette_open);
    assert_eq!(screen.mode, InputMode::Normal);

    let mut again = Screen::new(InputMode::CommandPalette, 10);
    again.palette_open = true;
    assert_eq!(
        again.step_action(ActionKind::Confirm, false, Some(ActionKind::OpenCommandPalette)),
        ActionStep::RunFromPalette { run: false }
    );
    assert!(!again.palette_open);

    let mut empty = Screen::new(InputMode::CommandPalette, 10);
    empty.palette_open = true;
    assert_eq!(empty.step_action(ActionKind::Confirm, false, None), ActionStep::Ignore);
    assert!(empty.palette_open);
    assert_eq!(empty.mode, InputMode::CommandPalette);
}

#[test]
fn executing_typed_quit_leaves_command_mode() {
    let mut screen = Screen::new(InputMode::Command, 10);
    screen.command_buffer = ":q".trim_start_matches(':').to_string();
    assert_eq!(screen.step_action(ActionKind::ExecuteCommand, false, None), ActionStep::RunCommand);
    assert!(matches!(screen.run_command(true), CommandOutcome::Quit));
    assert_eq!(screen.mode, InputMode::Normal);
    assert!(screen.command_buffer.is_empty());
}

fn turn(processing: bool) -> conduit_ui::events::TurnState {
    conduit_ui::events::TurnState {
        is_processing: processing,
        tools_in_flight: 0,
        has_live_input: true,
        supports_interactive_input: true,
        has_inline_prompt: false,
        queued_count: 0,
        suppress_next_assistant_reply: false,
        suppress_next_turn_summary: false,
        needs_attention: false,
        pr_number: None,
        has_pending_user_message: false,
        agent_session_id: None,
        has_model: true,
        model_invalid: false,
    }
}

#[test]
fn agent_events_route_by_session_id_after_tab_close() {
    let mut screen = Screen::new(InputMode::Normal, 10);
    assert!(screen.open_tab(1, None));
    assert!(screen.open_tab(2, None));
    assert!(screen.open_tab(3, None));
    screen.tabs.remove(0);
    screen.active_tab = 0;
    let mut turns = vec![turn(true), turn(true)];
    let fx = route_agent_event(&screen, &mut turns, 3, AgentEventKind::ToolCompleted);
    assert!(fx.is_some());
    assert!(turns[1].needs_attention);
    assert!(!turns[0].needs_attention);
    let none = route_agent_event(&screen, &mut turns, 1, AgentEventKind::TurnCompleted);
    assert!(none.is_none());
    assert!(turns[0].is_processing && turns[1].is_processing);
}
