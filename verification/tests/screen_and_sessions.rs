use conduit_ui::agent::{
    clamp_agent_mode, fallback_subagent_model, model_picker_providers,
    preferred_provider_for_handoff, preferred_provider_for_new_sessions, reasoning_supported,
    required_tool, restored_session_ids, session_to_resume, should_block_model_switch,
    subagent_delegation, AgentMode,
    AgentType, Tool,
};
use conduit_ui::dialogs::{
    dismiss_confirmation, plan_tick, sync_input_mode_for_active_tab, ConfirmationKind,
};
use conduit_ui::command::InputMode;
use conduit_ui::events::{layered_setting, removal_confirmation_type, ConfirmationType};
use conduit_ui::layout::{
    centered_dialog, footer_hint_at, is_double_click, list_row_at, point_in_rect, pr_badge_hit,
    route_click, sidebar_visual_row, status_bar_region, ClickTarget, ModalDialog, Rect,
    RightContent, ScreenAreas, StatusBarRegion,
};
use conduit_ui::mcp::{
    codex_config_servers, detect_all_mcp_servers, disabled_codex_servers,
    extract_mcp_server_name, is_claude_mcp_tool_name, mcp_json_servers, mcp_override_key,
    mcp_permission_denial,
    resolve_disabled_servers, McpSource,
};
use conduit_ui::transcript::{encode_project_dir, is_user_turn_line, lines_of, rewind_transcript};
use conduit_ui::workflow::{
    clone_failure_message, plan_branch_rename, pr_preflight_outcome, pr_target_tab, PrPreflight,
    PrPreflightOutcome,
};

fn rect(x: u16, y: u16, width: u16, height: u16) -> Rect {
    Rect { x, y, width, height }
}

fn texts(v: &[&str]) -> Vec<String> {
    v.iter().map(|s| s.to_string()).collect()
}

#[test]
fn rectangles_and_rows() {
    let r = rect(2, 3, 4, 5);
    assert!(point_in_rect(2, 3, r));
    assert!(point_in_rect(5, 7, r));
    assert!(!point_in_rect(6, 7, r));
    assert!(!point_in_rect(5, 8, r));
    assert_eq!(centered_dialog(100, 40, 60, 20, 4, 4), rect(20, 10, 60, 20));
    assert_eq!(centered_dialog(50, 10, 60, 20, 4, 4), rect(2, 2, 46, 6));
    assert_eq!(list_row_at(rect(0, 10, 30, 10), 12, 2, 3), Some(0));
    assert_eq!(list_row_at(rect(0, 10, 30, 10), 11, 2, 3), None);
    assert_eq!(list_row_at(rect(0, 10, 30, 10), 18, 2, 3), Some(6));
    assert_eq!(list_row_at(rect(0, 10, 30, 10), 19, 2, 3), None);
    assert_eq!(sidebar_visual_row(rect(0, 1, 20, 30), 2, 2), None);
    assert_eq!(sidebar_visual_row(rect(0, 1, 20, 30), 2, 7), Some(4));
}

#[test]
fn double_clicks() {
    assert!(is_double_click(Some((1000, 3)), 1400, 3));
    assert!(!is_double_click(Some((1000, 3)), 1500, 3));
    assert!(!is_double_click(Some((1000, 2)), 1100, 3));
    assert!(!is_double_click(None, 1100, 3));
}

#[test]
fn status_bar_regions() {
    let bar = rect(10, 0, 80, 1);
    assert_eq!(status_bar_region(10, bar, false, true, 5, 6, 5), StatusBarRegion::Other);
    assert_eq!(status_bar_region(11, bar, false, true, 5, 6, 5), StatusBarRegion::Mode);
    assert_eq!(status_bar_region(17, bar, false, true, 5, 6, 5), StatusBarRegion::Mode);
    assert_eq!(status_bar_region(18, bar, false, true, 5, 6, 5), StatusBarRegion::Model);
    assert_eq!(status_bar_region(31, bar, false, true, 5, 6, 5), StatusBarRegion::Model);
    assert_eq!(status_bar_region(32, bar, false, true, 5, 6, 5), StatusBarRegion::Other);
    assert_eq!(status_bar_region(11, bar, false, false, 5, 6, 5), StatusBarRegion::Model);
    assert_eq!(status_bar_region(11, bar, true, true, 5, 6, 5), StatusBarRegion::Other);
}

#[test]
fn pr_badge_columns() {
    let bar = rect(0, 0, 40, 1);
    let plain = RightContent { has_changes: false, additions: 0, deletions: 0, branch_len: None };
    // " PR #12 " (8 columns) plus two of padding sits at columns 30..38.
    assert!(!pr_badge_hit(29, bar, 12, &plain));
    assert!(pr_badge_hit(30, bar, 12, &plain));
    assert!(pr_badge_hit(37, bar, 12, &plain));
    assert!(!pr_badge_hit(38, bar, 12, &plain));
    let busy = RightContent { has_changes: true, additions: 5, deletions: 12, branch_len: Some(4) };
    // badge 8, stats " · +5 -12" 9, branch " · main" 7, padding 2: 26 columns.
    assert!(pr_badge_hit(14, bar, 12, &busy));
    assert!(!pr_badge_hit(13, bar, 12, &busy));
    assert!(!pr_badge_hit(22, bar, 12, &busy));
    let narrow = rect(0, 0, 5, 1);
    assert!(!pr_badge_hit(0, narrow, 12, &plain));
}

#[test]
fn footer_hints_by_column() {
    let footer = rect(0, 0, 100, 1);
    // Each hint takes key + 2, action + 1 and 3 columns more.
    let hints = vec![(1, 4), (2, 5)];
    assert_eq!(footer_hint_at(0, footer, &hints), None);
    assert_eq!(footer_hint_at(1, footer, &hints), Some(0));
    assert_eq!(footer_hint_at(11, footer, &hints), Some(0));
    assert_eq!(footer_hint_at(12, footer, &hints), Some(1));
    assert_eq!(footer_hint_at(24, footer, &hints), Some(1));
    assert_eq!(footer_hint_at(25, footer, &hints), None);
}

#[test]
fn clicks_are_routed() {
    let areas = ScreenAreas {
        sidebar: Some(rect(0, 0, 20, 30)),
        tab_bar: Some(rect(20, 0, 60, 1)),
        input: Some(rect(20, 25, 60, 3)),
        status_bar: Some(rect(20, 28, 60, 1)),
        footer: Some(rect(0, 29, 80, 1)),
        raw_events: None,
    };
    assert_eq!(route_click(Some(ModalDialog::ProjectPicker), &areas, 1, 1), ClickTarget::Dialog(ModalDialog::ProjectPicker));
    assert_eq!(route_click(None, &areas, 1, 1), ClickTarget::Sidebar);
    assert_eq!(route_click(None, &areas, 30, 0), ClickTarget::TabBar);
    assert_eq!(route_click(None, &areas, 30, 26), ClickTarget::Input);
    assert_eq!(route_click(None, &areas, 30, 28), ClickTarget::StatusBar);
    assert_eq!(route_click(None, &areas, 30, 29), ClickTarget::Footer);
    assert_eq!(route_click(None, &areas, 30, 10), ClickTarget::Chat);
}

#[test]
fn transcript_rewinds_last_user_turn() {
    let content = "{\"type\":\"summary\"}\n{\"type\":\"user\",\"message\":\"one\"}\n{\"type\":\"assistant\"}\n{\"type\":\"user\",\"message\":\"two\"}\n{\"type\":\"assistant\"}\n{\"type\":\"user\",\"isMeta\":true}\n";
    assert_eq!(
        rewind_transcript(content).as_deref(),
        Some("{\"type\":\"summary\"}\n{\"type\":\"user\",\"message\":\"one\"}\n{\"type\":\"assistant\"}\n")
    );
    assert_eq!(rewind_transcript("{\"type\":\"user\"}\n").as_deref(), Some(""));
    assert_eq!(rewind_transcript("{\"type\":\"assistant\"}\n"), None);
    assert_eq!(rewind_transcript(""), None);
}

#[test]
fn transcript_lines_and_turns() {
    assert_eq!(lines_of("a\r\nb\n\nc\n"), texts(&["a", "b", "", "c"]));
    assert_eq!(lines_of(""), Vec::<String>::new());
    assert!(is_user_turn_line("{\"type\":\"user\",\"isMeta\":false}"));
    assert!(!is_user_turn_line("{\"type\":\"user\",\"isMeta\":true}"));
    assert!(!is_user_turn_line("{\"type\":\"assistant\"}"));
    assert!(!is_user_turn_line("not json"));
    assert_eq!(encode_project_dir("/home/me/proj"), "-home-me-proj");
}

#[test]
fn json_and_toml_fields() {
    assert!(is_user_turn_line("{\"type\":\"user\"}"));
    assert!(!is_user_turn_line("{\"type\":3}"));
    assert!(!is_user_turn_line("{"));
    assert!(!is_user_turn_line("{\"type\":\"user\",\"isMeta\":true}"));
    assert!(is_user_turn_line("{\"type\":\"user\",\"isMeta\":\"yes\"}"));
    assert_eq!(mcp_json_servers("{\"mcpServers\":{\"b\":{},\"a\":{}}}"), texts(&["a", "b"]));
    assert!(mcp_json_servers("{\"mcpServers\":[]}").is_empty());
    assert!(mcp_json_servers("not json").is_empty());
    assert_eq!(
        codex_config_servers("[mcp_servers.fs]\ncommand = \"x\"\n[mcp_servers.git]\n"),
        texts(&["fs", "git"])
    );
    assert!(codex_config_servers("not = = toml").is_empty());
    assert!(codex_config_servers("[other]\nx = 1\n").is_empty());
}

#[test]
fn mcp_server_names() {
    assert_eq!(extract_mcp_server_name("mcp__github__create_issue").as_deref(), Some("github"));
    assert_eq!(extract_mcp_server_name("mcp:fs:read").as_deref(), Some("fs"));
    assert_eq!(extract_mcp_server_name("mcp/web/fetch").as_deref(), Some("web"));
    assert_eq!(extract_mcp_server_name("Read"), None);
    assert!(is_claude_mcp_tool_name("mcp__x__y"));
    assert!(is_claude_mcp_tool_name("mcp:x"));
    assert!(!is_claude_mcp_tool_name("Read"));
    assert_eq!(mcp_override_key("fs"), "mcp_servers.fs.enabled");
}

#[test]
fn mcp_detection_and_disabling() {
    let codex = "[mcp_servers.zed]\ncommand = \"z\"\n[mcp_servers.alpha]\ncommand = \"a\"\n";
    let json = "{\"mcpServers\":{\"web\":{},\"db\":{}}}";
    assert_eq!(codex_config_servers(codex), texts(&["alpha", "zed"]));
    assert_eq!(mcp_json_servers(json), texts(&["db", "web"]));
    assert!(mcp_json_servers("{}").is_empty());
    let all = detect_all_mcp_servers(Some(codex), Some(json));
    let got: Vec<(String, McpSource, bool)> = all.into_iter().map(|s| (s.name, s.source, s.enabled)).collect();
    assert_eq!(
        got,
        vec![
            ("alpha".to_string(), McpSource::Codex, true),
            ("zed".to_string(), McpSource::Codex, true),
            ("db".to_string(), McpSource::McpJson, true),
            ("web".to_string(), McpSource::McpJson, true),
        ]
    );
    assert!(detect_all_mcp_servers(None, None).is_empty());
    assert_eq!(
        disabled_codex_servers(&texts(&["alpha", "zed"]), &texts(&["zed", "other"])),
        texts(&["zed"])
    );
    assert_eq!(resolve_disabled_servers(&texts(&["a"]), &Some(texts(&["b"]))), texts(&["b"]));
    assert_eq!(resolve_disabled_servers(&texts(&["a"]), &None), texts(&["a"]));
}

#[test]
fn providers_and_models() {
    assert_eq!(required_tool(AgentType::Codex), Tool::Codex);
    assert_eq!(required_tool(AgentType::Pi), Tool::Pi);
    assert!(reasoning_supported(AgentType::Codex));
    assert_eq!(clamp_agent_mode(false, AgentMode::Plan), AgentMode::Build);
    assert_eq!(clamp_agent_mode(true, AgentMode::Plan), AgentMode::Plan);
    assert_eq!(fallback_subagent_model(AgentType::Codex, Some("o3"), "dflt"), "o3");
    assert_eq!(fallback_subagent_model(AgentType::Pi, Some(""), "dflt"), "gemini-2.5-flash");
    assert_eq!(fallback_subagent_model(AgentType::Gemini, None, "dflt"), "dflt");
    assert!(should_block_model_switch(true, 0, false, false));
    assert!(!should_block_model_switch(false, 0, false, false));
}

#[test]
fn provider_preferences() {
    let enabled = vec![AgentType::Codex, AgentType::Gemini];
    let order = vec![AgentType::Gemini, AgentType::Codex];
    assert_eq!(preferred_provider_for_new_sessions(&enabled, AgentType::Codex, &order), Some(AgentType::Codex));
    assert_eq!(preferred_provider_for_new_sessions(&enabled, AgentType::Claude, &order), Some(AgentType::Gemini));
    assert_eq!(preferred_provider_for_new_sessions(&Vec::new(), AgentType::Claude, &order), None);
    assert_eq!(preferred_provider_for_handoff(&enabled, AgentType::Codex, &order, AgentType::Codex), AgentType::Gemini);
    let providers = model_picker_providers(vec![AgentType::Gemini], AgentType::Codex, true);
    assert!(providers.contains(&AgentType::Codex));
    assert!(providers.contains(&AgentType::Gemini));
}

#[test]
fn session_resumption() {
    let live = Some("live".to_string());
    let saved = Some("saved".to_string());
    assert_eq!(session_to_resume(AgentType::Claude, false, &live, &saved), live);
    assert_eq!(session_to_resume(AgentType::Claude, false, &None, &saved), saved);
    assert_eq!(session_to_resume(AgentType::Codex, false, &None, &saved), None);
    assert_eq!(session_to_resume(AgentType::Codex, true, &None, &saved), saved);
    assert_eq!(restored_session_ids(AgentType::Codex, &saved), (saved.clone(), None));
    assert_eq!(restored_session_ids(AgentType::Gemini, &saved), (saved.clone(), saved.clone()));
}

#[test]
fn pr_preflight_decisions() {
    let base = PrPreflight {
        gh_installed: true,
        gh_authenticated: true,
        on_main_branch: false,
        branch_name: "feat/x".to_string(),
        target_branch: "main".to_string(),
        uncommitted_count: 2,
        has_upstream: false,
        existing_pr: Some((false, None, None)),
    };
    match pr_preflight_outcome(&base) {
        PrPreflightOutcome::ConfirmCreate { message, warnings, clear_stale_pr } => {
            assert_eq!(message, "Branch: feat/x\nTarget: main");
            assert_eq!(warnings, texts(&["2 file(s) will be auto-committed", "Branch will be pushed to remote"]));
            assert!(clear_stale_pr);
        }
        _ => panic!("expected the creation dialog"),
    }
    let existing = PrPreflight { existing_pr: Some((true, Some(17), Some("https://x/pull/17".to_string()))), ..base };
    match pr_preflight_outcome(&existing) {
        PrPreflightOutcome::ExistingPr { message, url, number } => {
            assert_eq!(message, "PR #17 already exists for branch 'feat/x'.\n\nOpen in browser?");
            assert_eq!(url, "https://x/pull/17");
            assert_eq!(number, Some(17));
        }
        _ => panic!("expected the existing pull request"),
    }
    let on_main = PrPreflight { on_main_branch: true, branch_name: "main".to_string(), ..existing };
    match pr_preflight_outcome(&on_main) {
        PrPreflightOutcome::OnMainBranch { message } => {
            assert_eq!(message, "You're on the 'main' branch. Create a feature branch first.")
        }
        _ => panic!("expected the main-branch message"),
    }
    let no_auth = PrPreflight { gh_authenticated: false, ..on_main };
    assert!(matches!(pr_preflight_outcome(&no_auth), PrPreflightOutcome::NotAuthenticated));
    let no_gh = PrPreflight { gh_installed: false, ..no_auth };
    assert!(matches!(pr_preflight_outcome(&no_gh), PrPreflightOutcome::MissingGh));
}

#[test]
fn branch_renames() {
    assert_eq!(plan_branch_rename("", "me/old", "me", "fix-login").as_deref(), Some("me/fix-login"));
    assert_eq!(plan_branch_rename("me/fix-login", "x", "me", "fix-login"), None);
    assert_eq!(plan_branch_rename("old", "", "task", "fix").as_deref(), Some("fix"));
    assert_eq!(plan_branch_rename("old", "", "me", "task"), None);
    assert_eq!(plan_branch_rename("", "", "me", "fix"), None);
}

#[test]
fn dialog_and_tick_decisions() {
    assert_eq!(dismiss_confirmation(Some(ConfirmationKind::ForkSession), true), (InputMode::Normal, true));
    assert_eq!(dismiss_confirmation(Some(ConfirmationKind::RemoveProject), true), (InputMode::SidebarNavigation, false));
    assert_eq!(dismiss_confirmation(None, false), (InputMode::SidebarNavigation, false));
    assert_eq!(sync_input_mode_for_active_tab(InputMode::Normal, true), InputMode::FileViewer);
    assert_eq!(sync_input_mode_for_active_tab(InputMode::FileViewer, false), InputMode::Normal);
    let t = plan_tick(6, true, false, 10_000, 4_000);
    assert!(t.footer_spinner && t.splash_animation && t.reset_splash && t.animations && t.poll_projects);
    let t = plan_tick(7, true, true, 10_000, 9_000);
    assert!(!t.footer_spinner && !t.splash_animation && !t.animations && !t.poll_projects);
    assert_eq!(removal_confirmation_type(true, true, 0), ConfirmationType::Danger);
    assert_eq!(removal_confirmation_type(false, false, 2), ConfirmationType::Warning);
    assert_eq!(removal_confirmation_type(false, false, 0), ConfirmationType::Info);
    assert_eq!(layered_setting(None, Some(2), 1), 2);
    assert_eq!(layered_setting(Some(3), Some(2), 1), 3);
    assert_eq!(layered_setting::<u8>(None, None, 1), 1);
}

#[test]
fn pull_request_target_tab() {
    let dirs = vec![Some("/w/a".to_string()), None, Some("/w/b".to_string()), Some("/w/b".to_string())];
    assert_eq!(pr_target_tab(&dirs, 3, "/w/b"), Some(3));
    assert_eq!(pr_target_tab(&dirs, 0, "/w/b"), Some(2));
    assert_eq!(pr_target_tab(&dirs, 9, "/w/a"), Some(0));
    assert_eq!(pr_target_tab(&dirs, 1, "/w/c"), None);
}

#[test]
fn clone_failures() {
    assert_eq!(
        clone_failure_message("Cloning into 'x'...\nfatal: repository not found\n"),
        "git clone failed: fatal: repository not found"
    );
    assert_eq!(clone_failure_message("  \n "), "git clone failed: unknown error");
}

#[test]
fn disabled_mcp_servers_are_refused() {
    let disabled = texts(&["github"]);
    assert_eq!(
        mcp_permission_denial(AgentType::Claude, "mcp__github__create_issue", Some(&disabled)).as_deref(),
        Some("MCP server 'github' is disabled for this workspace.")
    );
    assert_eq!(mcp_permission_denial(AgentType::Claude, "mcp__fs__read", Some(&disabled)), None);
    assert_eq!(mcp_permission_denial(AgentType::Claude, "mcp__github__x", None), None);
    assert_eq!(mcp_permission_denial(AgentType::Codex, "mcp__github__x", Some(&disabled)), None);
    assert_eq!(mcp_permission_denial(AgentType::Claude, "Read", Some(&disabled)), None);
}

#[test]
fn subagent_badges() {
    assert_eq!(
        subagent_delegation("Agent", true, Some("conduit-explore"), AgentType::Pi, None, "fast", "deep"),
        Some(("Explore".to_string(), "gemini-2.5-flash".to_string()))
    );
    assert_eq!(
        subagent_delegation("Agent", true, Some("conduit-review"), AgentType::Claude, None, "fast", "deep"),
        Some(("Review".to_string(), "fast".to_string()))
    );
    assert_eq!(
        subagent_delegation("Agent", true, Some("conduit-adversarial-review"), AgentType::Claude, Some("m2"), "fast", "deep"),
        Some(("Adversarial Review".to_string(), "m2".to_string()))
    );
    assert_eq!(
        subagent_delegation("Agent", true, Some("conduit-adversarial-review"), AgentType::Claude, None, "fast", "deep"),
        Some(("Adversarial Review".to_string(), "deep".to_string()))
    );
    assert_eq!(subagent_delegation("Agent", false, Some("conduit-review"), AgentType::Claude, None, "f", "d"), None);
    assert_eq!(subagent_delegation("Bash", true, Some("conduit-review"), AgentType::Claude, None, "f", "d"), None);
    assert_eq!(subagent_delegation("Agent", true, Some("other"), AgentType::Claude, None, "f", "d"), None);
}

#[test]
fn rewound_transcript_reads_back_kept_lines() {
    let content = "{\"type\":\"summary\"}\n\n{\"type\":\"assistant\"}\n{\"type\":\"user\"}\n{\"type\":\"assistant\"}\n";
    let rewound = rewind_transcript(content).expect("a user turn");
    assert_eq!(lines_of(&rewound), lines_of(content)[..3].to_vec());
}
