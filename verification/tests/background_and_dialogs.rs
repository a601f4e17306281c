use conduit_ui::agent::AgentType;
use conduit_ui::background::{
    fork_dialog, fork_failure_message, pr_url_from_log, project_removed, remove_project_title,
    removal_preflight, work_action_follow_up, work_agent_prompt_for, WorkAction, WorkFollowUp,
};
use conduit_ui::command::{resolved_command_step, CommandStep, ConduitCommand, InputMode, SlashAction};
use conduit_ui::dialogs::{
    answer_confirmation, choose_model, model_switch_message, orchestration_message,
    reasoning_effort_message, ConfirmAnswer, ConfirmationKind, ConfirmationStep, ModelChoice,
    ModelPickerContext, WorkspaceModeChoice,
};
use conduit_ui::events::ConfirmationType;
use conduit_ui::layout::{ensure_tab_bar_scroll, TabScroll};
use conduit_ui::opening::{
    continue_new_project, history_import_notice, imported_session, inherited_session_settings,
    projects_dir_below_home, restore_pending_message, NewProjectStep,
};
use conduit_ui::prompt::build_adversarial_review_prompt;
use conduit_ui::settings::{
    no_providers_message, open_setting, settings_menu_entries, sync_theme, SettingTarget,
    SettingsEntryId, ThemeAction,
};
use conduit_ui::tracker::{apply_pr_status_update, PrStatusUpdate, SidebarPr, TabPr};

fn texts(v: &[&str]) -> Vec<String> {
    v.iter().map(|s| s.to_string()).collect()
}

#[test]
fn stale_pr_is_not_attached_to_a_new_session() {
    let mut tabs = vec![
        TabPr { workspace_id: Some(1), pr_number: None },
        TabPr { workspace_id: Some(1), pr_number: Some(7) },
        TabPr { workspace_id: Some(2), pr_number: None },
    ];
    let merged = Some(PrStatusUpdate { number: Some(9), merged_or_closed: true });
    let (taken, sidebar) = apply_pr_status_update(&mut tabs, 1, merged);
    assert_eq!(taken, vec![false, true, false]);
    assert_eq!(sidebar, SidebarPr::Update);
    assert_eq!(tabs[0].pr_number, None);
    assert_eq!(tabs[1].pr_number, Some(9));
    assert_eq!(tabs[2].pr_number, None);
}

#[test]
fn stale_pr_with_no_taker_clears_the_sidebar() {
    let mut tabs = vec![TabPr { workspace_id: Some(1), pr_number: None }];
    let closed = Some(PrStatusUpdate { number: Some(3), merged_or_closed: true });
    let (taken, sidebar) = apply_pr_status_update(&mut tabs, 1, closed);
    assert_eq!(taken, vec![false]);
    assert_eq!(sidebar, SidebarPr::Clear);
    assert_eq!(tabs[0].pr_number, None);
}

#[test]
fn open_pr_is_attached_and_keeps_known_number() {
    let mut tabs = vec![
        TabPr { workspace_id: Some(4), pr_number: None },
        TabPr { workspace_id: Some(4), pr_number: Some(12) },
    ];
    let open = Some(PrStatusUpdate { number: Some(5), merged_or_closed: false });
    let (taken, sidebar) = apply_pr_status_update(&mut tabs, 4, open);
    assert_eq!(taken, vec![true, true]);
    assert_eq!(sidebar, SidebarPr::Update);
    assert_eq!(tabs[0].pr_number, Some(5));
    let no_number = Some(PrStatusUpdate { number: None, merged_or_closed: false });
    apply_pr_status_update(&mut tabs, 4, no_number);
    assert_eq!(tabs[1].pr_number, Some(5));
    let (taken, sidebar) = apply_pr_status_update(&mut tabs, 4, None);
    assert_eq!(taken, vec![false, false]);
    assert_eq!(sidebar, SidebarPr::Update);
}

#[test]
fn tab_bar_scroll_follows_the_active_tab() {
    let start = TabScroll { offset: 0, last_active: None, active_end: 0 };
    let s = ensure_tab_bar_scroll(start, true, 30, 3, 12, 50);
    assert_eq!(s, TabScroll { offset: 12, last_active: Some(3), active_end: 50 });
    // The same tab grew: scroll right, never left.
    let s2 = ensure_tab_bar_scroll(s, true, 30, 3, 15, 53);
    assert_eq!(s2.offset, 15);
    let s3 = ensure_tab_bar_scroll(s2, true, 30, 3, 2, 60);
    assert_eq!(s3.offset, 15);
    // The bar got wider: the offset stays within bounds.
    let s4 = ensure_tab_bar_scroll(s3, true, 10, 3, 2, 60);
    assert_eq!(s4.offset, 10);
    let none = ensure_tab_bar_scroll(s4, false, 10, 0, 0, 0);
    assert_eq!(none.offset, 0);
    assert_eq!(none.last_active, None);
}

#[test]
fn model_choice_by_context() {
    assert_eq!(choose_model(ModelPickerContext::HandoffSelection, false), ModelChoice::MissingTool);
    assert_eq!(choose_model(ModelPickerContext::HandoffSelection, true), ModelChoice::Handoff);
    assert_eq!(
        choose_model(ModelPickerContext::OnboardingDefaultSelection, true),
        ModelChoice::SaveDefaultThenContinueProject
    );
    assert_eq!(choose_model(ModelPickerContext::SessionSelection, true), ModelChoice::SwitchSession);
    assert_eq!(
        choose_model(ModelPickerContext::WorkspaceReadyAdversarialConfig, true),
        ModelChoice::SetWorkspaceAdversarialModel
    );
}

#[test]
fn selector_messages() {
    assert_eq!(model_switch_message(true, "Codex", "GPT-5"), "Switched to Codex with model: GPT-5");
    assert_eq!(model_switch_message(false, "Codex", "GPT-5"), "Model changed to: GPT-5");
    assert_eq!(reasoning_effort_message(Some("High")), "Reasoning effort set to: High");
    assert_eq!(reasoning_effort_message(None), "Reasoning effort set to: Auto");
    assert_eq!(orchestration_message(false), "Orchestration mode disabled");
    assert!(orchestration_message(true).starts_with("Orchestration mode enabled"));
}

#[test]
fn confirmation_answers() {
    assert_eq!(
        answer_confirmation(ConfirmAnswer::Yes, true, false, Some(ConfirmationKind::Quit), true),
        ConfirmationStep::Quit
    );
    assert_eq!(
        answer_confirmation(ConfirmAnswer::Yes, true, true, Some(ConfirmationKind::Quit), true),
        ConfirmationStep::Ignore
    );
    assert_eq!(
        answer_confirmation(ConfirmAnswer::Yes, false, false, Some(ConfirmationKind::Quit), true),
        ConfirmationStep::Ignore
    );
    assert_eq!(
        answer_confirmation(ConfirmAnswer::No, true, false, Some(ConfirmationKind::SelectWorkspaceMode), true),
        ConfirmationStep::SetWorkspaceMode { choice: WorkspaceModeChoice::Checkout }
    );
    assert_eq!(
        answer_confirmation(ConfirmAnswer::Yes, true, false, Some(ConfirmationKind::SelectWorkspaceMode), true),
        ConfirmationStep::SetWorkspaceMode { choice: WorkspaceModeChoice::Worktree }
    );
    assert_eq!(
        answer_confirmation(ConfirmAnswer::No, true, false, Some(ConfirmationKind::RemoveProject), false),
        ConfirmationStep::Dismiss { mode: InputMode::SidebarNavigation }
    );
    assert_eq!(
        answer_confirmation(ConfirmAnswer::No, true, false, Some(ConfirmationKind::CreatePullRequest), true),
        ConfirmationStep::Dismiss { mode: InputMode::Normal }
    );
    assert_eq!(
        answer_confirmation(ConfirmAnswer::No, true, false, Some(ConfirmationKind::ForkSessionPreflightInProgress), true),
        ConfirmationStep::Ignore
    );
    assert_eq!(answer_confirmation(ConfirmAnswer::Toggle, true, false, None, true), ConfirmationStep::ToggleSelection);
}

#[test]
fn opening_workspaces() {
    assert_eq!(history_import_notice(AgentType::Codex), None);
    assert_eq!(
        history_import_notice(AgentType::Gemini).as_deref(),
        Some("Gemini CLI history import isn't supported yet, so previous messages won't be shown.")
    );
    assert!(restore_pending_message(None, "hi"));
    assert!(restore_pending_message(Some("earlier"), "hi"));
    assert!(!restore_pending_message(Some("hi"), "hi"));
    let s = inherited_session_settings(AgentType::Claude, None, Some(true), false, Some(false), Some(true), None, Some("m".to_string())).unwrap();
    assert!(s.orchestration_enabled);
    assert!(!s.adversarial_review_enabled);
    assert_eq!(s.adversarial_review_model.as_deref(), Some("m"));
    let d = inherited_session_settings(AgentType::Claude, None, None, true, None, None, None, None).unwrap();
    assert!(d.orchestration_enabled && !d.adversarial_review_enabled && d.adversarial_review_model.is_none());
    assert!(inherited_session_settings(AgentType::Codex, Some(true), None, true, None, None, None, None).is_none());
}

#[test]
fn importing_sessions() {
    assert_eq!(imported_session(AgentType::Codex, Some("abc")), (Some("abc".to_string()), None, None));
    assert_eq!(
        imported_session(AgentType::Pi, None),
        (Some("unknown".to_string()), Some("unknown".to_string()), None)
    );
    assert_eq!(
        imported_session(AgentType::Copilot, Some("abc")),
        (None, None, Some("GitHub Copilot session import isn't supported yet.".to_string()))
    );
}

#[test]
fn settings_menu() {
    let entries = settings_menu_entries(
        None,
        "Codex",
        Some("GPT-5"),
        "gpt-5",
        &texts(&["Codex", "Gemini CLI"]),
        None,
        Some("/t/theme.toml"),
        "default",
        "worktree",
        true,
        false,
    );
    let got: Vec<(SettingsEntryId, String, String)> =
        entries.into_iter().map(|e| (e.id, e.title, e.value)).collect();
    assert_eq!(
        got,
        vec![
            (SettingsEntryId::ProjectsDirectory, "Projects Directory".to_string(), "Not set".to_string()),
            (SettingsEntryId::DefaultModel, "Default Model".to_string(), "Codex: GPT-5".to_string()),
            (SettingsEntryId::EnabledProviders, "Agent CLIs".to_string(), "Codex, Gemini CLI".to_string()),
            (SettingsEntryId::Theme, "Theme".to_string(), "/t/theme.toml".to_string()),
            (
                SettingsEntryId::WorkspaceDefaults,
                "Workspace Defaults".to_string(),
                "worktree, delete branch on, remote prompt off".to_string()
            ),
            (SettingsEntryId::Keybindings, "Keybindings".to_string(), String::new()),
        ]
    );
    let other = settings_menu_entries(Some("/src"), "Pi", None, "p-1", &Vec::new(), Some("dark"), None, "x", "checkout", false, true);
    assert_eq!(other[0].value, "/src");
    assert_eq!(other[1].value, "Pi: p-1");
    assert_eq!(other[2].value, "None");
    assert_eq!(other[3].value, "dark");
    assert_eq!(open_setting(SettingsEntryId::DefaultModel, false), SettingTarget::NoProviders);
    assert_eq!(
        open_setting(SettingsEntryId::DefaultModel, true),
        SettingTarget::Open { mode: InputMode::SelectingModel }
    );
    assert_eq!(
        open_setting(SettingsEntryId::Keybindings, false),
        SettingTarget::Open { mode: InputMode::KeybindingsEditor }
    );
    let m = no_providers_message();
    assert_eq!(m.text, "No enabled providers available. Use providers first.");
    assert_eq!(m.seconds, 4);
}

#[test]
fn fork_dialogs() {
    let d = fork_dialog("main", Some("2 files changed".to_string()), false, true, 850, 1000, "85");
    assert_eq!(
        d.message,
        "Fork this session into a new workspace based on branch \"main\".\nSeed size: 850 / 1000 tokens (~85%)."
    );
    assert_eq!(
        d.warnings,
        texts(&[
            "2 files changed",
            "Commit before forking to preserve changes.",
            "Seed uses ~85% of context window (850 / 1000)."
        ])
    );
    assert_eq!(d.confirmation, ConfirmationType::Warning);
    let over = fork_dialog("dev", None, true, true, 1200, 1000, "120");
    assert_eq!(over.warnings, texts(&["Seed exceeds context window (1200 / 1000 tokens, ~120%)."]));
    assert_eq!(over.confirmation, ConfirmationType::Danger);
    let fine = fork_dialog("dev", None, false, false, 10, 1000, "1");
    assert!(fine.warnings.is_empty());
    assert_eq!(fine.confirmation, ConfirmationType::Info);
    assert_eq!(fork_failure_message("boom", None), "boom");
    assert_eq!(
        fork_failure_message("boom", Some("busy")),
        "boom\n\nWorkspace cleanup failed: busy. You may need to manually remove it from the sidebar."
    );
}

#[test]
fn project_removal() {
    assert_eq!(remove_project_title("app"), "Remove \"app\"?");
    let p = removal_preflight(&vec![Some((false, true)), None, Some((true, true))]);
    assert!(p.has_dirty && !p.has_unmerged);
    assert_eq!(p.warnings, texts(&["3 workspaces will be archived", "Some workspaces have uncommitted changes"]));
    let one = removal_preflight(&vec![Some((false, false))]);
    assert_eq!(one.warnings, texts(&["1 workspace will be archived", "Some branches are not merged to main"]));
    assert!(removal_preflight(&Vec::new()).warnings.is_empty());
    let r = project_removed(4, 3, false);
    assert_eq!((r.selection, r.show_splash, r.mode), (2, false, Some(InputMode::SidebarNavigation)));
    let r = project_removed(0, 3, true);
    assert_eq!((r.selection, r.mode), (0, None));
    let r = project_removed(2, 0, false);
    assert_eq!((r.selection, r.show_splash, r.mode), (0, true, Some(InputMode::Normal)));
}

#[test]
fn work_complete_follow_ups() {
    let log = texts(&["Pushed feat", "Created PR #12: https://github.com/o/r/pull/12"]);
    assert_eq!(pr_url_from_log(&log).as_deref(), Some("https://github.com/o/r/pull/12"));
    assert_eq!(pr_url_from_log(&texts(&["Created PR #12 without url"])), None);
    match work_action_follow_up(WorkAction::OpenPr, &log, None) {
        WorkFollowUp::CiStarted { pr_url } => assert_eq!(pr_url, "https://github.com/o/r/pull/12"),
        _ => panic!("expected the checks to be watched"),
    }
    assert!(matches!(work_action_follow_up(WorkAction::Archive, &log, None), WorkFollowUp::Archived));
    assert!(matches!(work_action_follow_up(WorkAction::Push, &log, None), WorkFollowUp::Completed));
    match work_action_follow_up(WorkAction::Push, &Vec::new(), Some("u".to_string())) {
        WorkFollowUp::CiStarted { pr_url } => assert_eq!(pr_url, "u"),
        _ => panic!("expected the checks to be watched"),
    }
    assert!(matches!(work_action_follow_up(WorkAction::Commit, &log, Some("u".to_string())), WorkFollowUp::Completed));
    assert_eq!(
        work_agent_prompt_for(Some(WorkAction::AdversarialReview), Some("c1")),
        Some(build_adversarial_review_prompt())
    );
    assert_eq!(
        work_agent_prompt_for(Some(WorkAction::ShowRemainingTasks), Some("c1")).as_deref(),
        Some("show incomplete tasks in c1")
    );
    assert_eq!(work_agent_prompt_for(None, None), None);
}

#[test]
fn resolved_conduit_commands() {
    assert_eq!(resolved_command_step(ConduitCommand::Model), CommandStep::Run(SlashAction::ShowModelSelector));
    assert_eq!(resolved_command_step(ConduitCommand::NewSession), CommandStep::NewSessionInPlace);
    assert_eq!(resolved_command_step(ConduitCommand::Btw), CommandStep::OpenQueueEditor);
    assert_eq!(resolved_command_step(ConduitCommand::AdversarialReview), CommandStep::SubmitAdversarialReview);
    assert_eq!(resolved_command_step(ConduitCommand::Status), CommandStep::Nothing);
}

#[test]
fn theme_follows_the_project() {
    assert!(matches!(sync_theme(Some("Dracula"), "Dracula", None, false), ThemeAction::Keep));
    match sync_theme(Some("Dracula"), "Night Owl", None, false) {
        ThemeAction::LoadProject { name } => assert_eq!(name, "Dracula"),
        _ => panic!("expected the project theme"),
    }
    assert!(matches!(sync_theme(None, "Night Owl", None, false), ThemeAction::Keep));
    assert!(matches!(sync_theme(None, "Night Owl", None, true), ThemeAction::UseConfigured));
    assert!(matches!(sync_theme(None, "Night Owl", Some("Nord"), false), ThemeAction::UseConfigured));
    assert!(matches!(sync_theme(None, "Nord", Some("Nord"), false), ThemeAction::Keep));
}

#[test]
fn new_project_flow() {
    assert_eq!(continue_new_project(false, true, true), NewProjectStep::Done);
    assert_eq!(continue_new_project(true, false, false), NewProjectStep::ChooseProviders);
    assert_eq!(continue_new_project(true, true, false), NewProjectStep::ChooseModel);
    assert_eq!(continue_new_project(true, true, true), NewProjectStep::OpenTarget);
    assert_eq!(projects_dir_below_home("~/code").as_deref(), Some("code"));
    assert_eq!(projects_dir_below_home("~//code/x").as_deref(), Some("code/x"));
    assert_eq!(projects_dir_below_home("~").as_deref(), Some(""));
    assert_eq!(projects_dir_below_home("/srv/code"), None);
}

#[test]
fn resetting_a_session() {
    let m = conduit_ui::opening::new_session_refusal(false, false).expect("refused");
    assert_eq!((m.text.as_str(), m.seconds), ("No active session to reset", 3));
    let m = conduit_ui::opening::new_session_refusal(true, true).expect("refused");
    assert_eq!(m.text, "Stop the agent before starting a new session");
    assert!(conduit_ui::opening::new_session_refusal(true, false).is_none());
}
