use conduit_ui::agent::{
    plan_submission, reject_cross_agent_switch, saved_session_id, AgentType, Delivery,
    SessionActivity, SubmitContext, SubmitPlan,
};
use conduit_ui::command::{
    should_trigger_command_mode, should_trigger_slash_menu, slash_command_action, ConduitCommand,
    InputMode, SlashAction,
};
use conduit_ui::events::{apply_agent_event, AgentEventKind, TurnState};
use conduit_ui::image::{encode_image, user_prompt_blocks, ContentBlock, ImageLoad};
use conduit_ui::jsonl::build_user_prompt_jsonl;
use conduit_ui::persistence::{persistence_warning, SessionPersistenceReport};
use conduit_ui::prompt::{sanitize_title, strip_image_placeholders, truncate_queue_line};

#[test]
fn test_apply_session_persistence_report_sets_footer_warning() {
    let mut report = SessionPersistenceReport::default();
    report.push("failed to save state".to_string());

    let warning = persistence_warning(&report).expect("footer warning");

    assert_eq!(
        Some(warning.text.as_str()),
        Some("Warning: some session state could not be saved. Check logs.")
    );
    assert!(warning.seconds > 0);
}

#[test]
fn test_colon_triggers_command_mode_on_empty_input() {
    let result = should_trigger_command_mode(Some(':'), true, InputMode::Normal, true, false, false);
    assert!(result, "Colon should trigger command mode on empty input");
}

#[test]
fn test_colon_with_modifiers_does_not_trigger_command_mode() {
    let result = should_trigger_command_mode(Some(':'), false, InputMode::Normal, true, false, false);
    assert!(!result, "Colon with modifiers should not trigger command mode");
}

#[test]
fn test_colon_does_not_trigger_command_mode_with_existing_input() {
    let result = should_trigger_command_mode(Some(':'), true, InputMode::Normal, false, false, false);
    assert!(
        !result,
        "Colon should NOT trigger command mode when input has existing content"
    );
}

#[test]
fn test_paste_url_with_port_does_not_trigger_command_mode() {
    let result = should_trigger_command_mode(Some(':'), true, InputMode::Normal, false, false, false);
    assert!(
        !result,
        "Pasting 'localhost:8080' should not trigger command mode at ':'"
    );
}

#[test]
fn test_colon_does_not_trigger_in_selecting_model() {
    let result =
        should_trigger_command_mode(Some(':'), true, InputMode::SelectingModel, true, false, false);
    assert!(
        !result,
        "Colon should NOT trigger command mode while selecting a model"
    );
}

#[test]
fn test_slash_triggers_menu_on_empty_input() {
    let result = should_trigger_slash_menu(Some('/'), true, InputMode::Normal, true, false, false, true);
    assert!(result, "Slash should trigger menu on empty input");
}

#[test]
fn test_dollar_triggers_menu_on_empty_input() {
    let result = should_trigger_slash_menu(Some('$'), true, InputMode::Normal, true, false, false, true);
    assert!(result, "Dollar should trigger menu on empty input");
}

#[test]
fn test_slash_does_not_trigger_with_existing_input() {
    let result =
        should_trigger_slash_menu(Some('/'), true, InputMode::Normal, false, false, false, true);
    assert!(!result, "Slash should not trigger menu when input has content");
}

#[test]
fn test_slash_does_not_trigger_without_session() {
    let result =
        should_trigger_slash_menu(Some('/'), true, InputMode::Normal, true, false, false, false);
    assert!(!result, "Slash should not trigger menu without an active session");
}

#[test]
fn test_slash_command_action_maps_fork_to_fork_session() {
    assert_eq!(
        slash_command_action(ConduitCommand::Fork),
        Some(SlashAction::ForkSession)
    );
}

#[test]
fn test_strip_image_placeholders_removes_placeholders() {
    let prompt = "Hello [img] world".to_string();
    let placeholders = vec!["[img]".to_string()];

    let cleaned = strip_image_placeholders(prompt, &placeholders);

    assert_eq!(cleaned, "Hello  world");
}

fn parse_line(line: &str) -> serde_json::Value {
    assert!(line.ends_with('\n'));
    serde_json::from_str(line.trim()).expect("one JSON value")
}

#[test]
fn test_build_user_prompt_jsonl_with_no_images() {
    let result = build_user_prompt_jsonl("Test prompt", &Vec::new());
    let parsed = parse_line(&result);

    assert_eq!(parsed["type"], "user");
    assert_eq!(parsed["message"]["role"], "user");

    let content = parsed["message"]["content"].as_array().unwrap();
    assert_eq!(content.len(), 1);
    assert_eq!(content[0]["type"], "text");
    assert_eq!(content[0]["text"], "Test prompt");
    let blocks = user_prompt_blocks("Test prompt", &Vec::new());
    assert!(matches!(&blocks[0], ContentBlock::Text { text } if text == "Test prompt"));
}

#[test]
fn test_build_user_prompt_jsonl_with_missing_images_fallback() {
    let images = vec![ImageLoad::Failed {
        path: "/nonexistent/image.png".to_string(),
    }];
    let result = build_user_prompt_jsonl("Test prompt", &images);
    let parsed = parse_line(&result);

    let content = parsed["message"]["content"].as_array().unwrap();
    assert_eq!(content.len(), 2);
    assert_eq!(content[0]["type"], "text");
    assert!(content[0]["text"]
        .as_str()
        .unwrap()
        .contains("Failed to load image"));
    assert_eq!(content[1]["type"], "text");
    assert_eq!(content[1]["text"], "Test prompt");
}

#[test]
fn test_build_user_prompt_jsonl_with_real_image() {
    let png_data: [u8; 70] = [
        0x89, 0x50, 0x4E, 0x47, 0x0D, 0x0A, 0x1A, 0x0A, 0x00, 0x00, 0x00, 0x0D, 0x49, 0x48, 0x44,
        0x52, 0x00, 0x00, 0x00, 0x01, 0x00, 0x00, 0x00, 0x01, 0x08, 0x02, 0x00, 0x00, 0x00, 0x90,
        0x77, 0x53, 0xDE, 0x00, 0x00, 0x00, 0x0C, 0x49, 0x44, 0x41, 0x54, 0x08, 0xD7, 0x63, 0xF8,
        0xCF, 0xC0, 0x00, 0x00, 0x00, 0x03, 0x00, 0x01, 0x00, 0x18, 0xDD, 0x8D, 0xB5, 0x00, 0x00,
        0x00, 0x00, 0x49, 0x45, 0x4E, 0x44, 0xAE, 0x42, 0x60, 0x82,
    ];
    let (data, media_type) = encode_image(&png_data, Some("png"));
    let images = vec![ImageLoad::Loaded { data, media_type }];
    let result = build_user_prompt_jsonl("What is in this image?", &images);
    let parsed = parse_line(&result);

    assert_eq!(parsed["type"], "user");
    assert_eq!(parsed["message"]["role"], "user");

    let content = parsed["message"]["content"].as_array().unwrap();
    assert_eq!(content.len(), 2, "Expected 2 content blocks (image + text)");
    assert_eq!(content[0]["type"], "image", "First block should be image");
    assert_eq!(content[0]["source"]["type"], "base64");
    assert_eq!(content[0]["source"]["media_type"], "image/png");
    let base64_data = content[0]["source"]["data"].as_str().unwrap();
    assert!(!base64_data.is_empty(), "base64 data should not be empty");
    assert_eq!(content[1]["type"], "text");
    assert_eq!(content[1]["text"], "What is in this image?");
}

#[test]
fn test_truncate_queue_line_handles_small_widths() {
    assert_eq!(truncate_queue_line("abcdef", 4), "a...");
    assert_eq!(truncate_queue_line("abcdef", 3), "...");
    assert_eq!(truncate_queue_line("abcdef", 2), "..");
    assert_eq!(truncate_queue_line("abcdef", 0), "");
}

#[test]
fn test_sanitize_title_collapses_whitespace_and_bounds_length() {
    let title = "  Hello\n\tworld  ".to_string();
    let cleaned = sanitize_title(&title);
    assert_eq!(cleaned, "Hello world");

    let long = "a".repeat(250);
    let bounded = sanitize_title(&long);
    assert!(bounded.chars().count() <= 200);

    let empty = "\n\t\r".to_string();
    let fallback = sanitize_title(&empty);
    assert_eq!(fallback, "Untitled task");
}

fn codex_session() -> TurnState {
    TurnState {
        is_processing: true,
        tools_in_flight: 0,
        has_live_input: true,
        supports_interactive_input: true,
        has_inline_prompt: false,
        queued_count: 0,
        suppress_next_assistant_reply: false,
        suppress_next_turn_summary: false,
        needs_attention: false,
        pr_number: None,
        has_pending_user_message: false,
        agent_session_id: None,
        has_model: true,
        model_invalid: false,
    }
}

#[test]
fn test_turn_completed_keeps_interactive_input_channel() {
    let mut session = codex_session();

    apply_agent_event(&mut session, AgentEventKind::TurnCompleted, true);

    assert!(session.has_live_input);
    assert!(!session.is_processing);
}

fn codex_submit(agent_session_id: Option<&str>, resume_session_id: Option<&str>) -> SubmitContext {
    SubmitContext {
        agent: AgentType::Codex,
        working_dir_exists: true,
        model_invalid: false,
        has_model: true,
        has_live_input: false,
        agent_session_id: agent_session_id.map(|s| s.to_string()),
        resume_session_id: resume_session_id.map(|s| s.to_string()),
        has_visible_user_message: false,
        has_title: false,
        title_generation_pending: false,
    }
}

#[test]
fn test_submit_prompt_for_tab_does_not_resume_stale_codex_session_without_live_channel() {
    let ctx = codex_submit(None, Some("codex-thread-123"));

    let plan = plan_submission(&ctx, "hi".to_string(), 0, &Vec::new(), false, false);

    match plan {
        SubmitPlan::Deliver {
            agent_prompt,
            delivery,
            resume_session_id,
            ..
        } => {
            assert_eq!(delivery, Delivery::StartAgent);
            assert!(resume_session_id.is_none());
            assert_eq!(agent_prompt, "hi");
        }
        _ => panic!("expected StartAgent effect"),
    }
}

#[test]
fn test_submit_prompt_for_tab_resumes_live_codex_session_after_turn_completion() {
    let ctx = codex_submit(Some("codex-thread-live"), Some("historic-session"));

    let plan = plan_submission(&ctx, "hi again".to_string(), 0, &Vec::new(), false, false);

    match plan {
        SubmitPlan::Deliver {
            agent_prompt,
            delivery,
            resume_session_id,
            ..
        } => {
            assert_eq!(delivery, Delivery::StartAgent);
            assert_eq!(resume_session_id.as_deref(), Some("codex-thread-live"));
            assert_eq!(agent_prompt, "hi again");
        }
        _ => panic!("expected StartAgent effect"),
    }
}

#[test]
fn test_snapshot_session_state_persists_resume_session_id_when_live_id_missing() {
    let saved = saved_session_id(&None, &Some("codex-restored-session".to_string()));
    assert_eq!(saved.as_deref(), Some("codex-restored-session"));
}

#[test]
fn test_handle_model_selector_click_blocks_cross_agent_switch_after_session_started() {
    let activity = SessionActivity {
        has_agent_session_id: false,
        has_resume_session_id: false,
        has_live_input: false,
        turn_count: 1,
    };
    let refusal = reject_cross_agent_switch(AgentType::Codex, AgentType::Claude, &activity)
        .expect("expected error message");
    assert!(refusal.contains("Switching agent type after a session has started"));
}
