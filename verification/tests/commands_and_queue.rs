use conduit_ui::command::{
    complete_command, footer_key_notation, longest_common_prefix, parse_command, CommandOutcome,
};
use conduit_ui::output::{absorb_chunk, SHELL_COMMAND_OUTPUT_LIMIT};
use conduit_ui::prompt::{
    ask_user_result_text, build_adversarial_review_prompt, exit_plan_result_text,
    format_prompt_answer, opencode_question_answers, remove_all_text, sanitize_title,
    truncate_queue_line, PromptAnswer,
};
use conduit_ui::queue::{
    drain_queue, queue_editor_selection, QueueDelivery, QueueMode, QueuedMessage, QueuedMessageMode,
};

fn names(v: &[&str]) -> Vec<String> {
    v.iter().map(|s| s.to_string()).collect()
}

fn msg(id: u128, mode: QueuedMessageMode) -> QueuedMessage {
    QueuedMessage {
        id,
        mode,
        text: format!("message {id}"),
        images: Vec::new(),
        created_at_ms: id as i64,
    }
}

fn ids(v: &[QueuedMessage]) -> Vec<u128> {
    v.iter().map(|m| m.id).collect()
}

#[test]
fn parse_open_with_path_and_home() {
    match parse_command("  Open \"~/notes/todo.md\"  ") {
        CommandOutcome::OpenPath { path, home_relative } => {
            assert_eq!(path, "~/notes/todo.md");
            assert_eq!(home_relative.as_deref(), Some("notes/todo.md"));
        }
        _ => panic!("expected an open command"),
    }
    match parse_command("o /etc/Hosts") {
        CommandOutcome::OpenPath { path, home_relative } => {
            assert_eq!(path, "/etc/Hosts");
            assert_eq!(home_relative, None);
        }
        _ => panic!("expected an open command"),
    }
    match parse_command("open ~") {
        CommandOutcome::OpenPath { home_relative, .. } => assert_eq!(home_relative.as_deref(), Some("")),
        _ => panic!("expected an open command"),
    }
}

#[test]
fn parse_open_without_path_shows_usage() {
    assert!(matches!(parse_command("open"), CommandOutcome::OpenUsage));
    assert!(matches!(parse_command(" O "), CommandOutcome::OpenUsage));
}

#[test]
fn parse_help_quit_and_actions() {
    assert!(matches!(parse_command("help"), CommandOutcome::ShowHelp));
    assert!(matches!(parse_command(" H "), CommandOutcome::ShowHelp));
    assert!(matches!(parse_command("?"), CommandOutcome::ShowHelp));
    assert!(matches!(parse_command("Q"), CommandOutcome::Quit));
    match parse_command("  New_Tab ") {
        CommandOutcome::Action { name } => assert_eq!(name, "new_tab"),
        _ => panic!("expected an action"),
    }
}

#[test]
fn common_prefix_of_names() {
    let v: Vec<Vec<char>> = vec!["quit".chars().collect(), "quick".chars().collect()];
    assert_eq!(longest_common_prefix(&v).into_iter().collect::<String>(), "qui");
    let one: Vec<Vec<char>> = vec!["help".chars().collect()];
    assert_eq!(longest_common_prefix(&one).into_iter().collect::<String>(), "help");
    assert!(longest_common_prefix(&Vec::new()).is_empty());
}

#[test]
fn completion_of_the_command_buffer() {
    let cmds = names(&["help", "new_tab", "new_project", "quit", "open"]);
    assert_eq!(complete_command("he", &cmds), "help");
    assert_eq!(complete_command("n", &cmds), "new_");
    assert_eq!(complete_command("new_", &cmds), "new_tab");
    assert_eq!(complete_command("new_tab", &cmds), "new_tab");
    assert_eq!(complete_command("zz", &cmds), "zz");
    assert_eq!(complete_command("   ", &cmds), "   ");
}

#[test]
fn footer_keys() {
    assert_eq!(footer_key_notation("CR"), "<CR>");
    assert_eq!(footer_key_notation("j/k"), "j");
    assert_eq!(footer_key_notation("CR/Esc"), "<CR>");
    assert_eq!(footer_key_notation("C-n"), "C-n");
}

#[test]
fn one_at_a_time_takes_first_steer() {
    let q = vec![
        msg(1, QueuedMessageMode::FollowUp),
        msg(2, QueuedMessageMode::FollowUp),
        msg(3, QueuedMessageMode::Steer),
        msg(4, QueuedMessageMode::Steer),
    ];
    let (send, keep) = drain_queue(q, QueueMode::OneAtATime, QueueDelivery::Concat);
    assert_eq!(ids(&send), vec![3]);
    assert_eq!(ids(&keep), vec![1, 2, 4]);
}

#[test]
fn one_at_a_time_takes_oldest_without_steer() {
    let q = vec![msg(5, QueuedMessageMode::FollowUp), msg(6, QueuedMessageMode::FollowUp)];
    let (send, keep) = drain_queue(q, QueueMode::OneAtATime, QueueDelivery::Separate);
    assert_eq!(ids(&send), vec![5]);
    assert_eq!(ids(&keep), vec![6]);
}

#[test]
fn all_sends_steers_first() {
    let q = vec![
        msg(1, QueuedMessageMode::FollowUp),
        msg(2, QueuedMessageMode::Steer),
        msg(3, QueuedMessageMode::FollowUp),
        msg(4, QueuedMessageMode::Steer),
    ];
    let (send, keep) = drain_queue(q, QueueMode::All, QueueDelivery::Concat);
    assert_eq!(ids(&send), vec![2, 4, 1, 3]);
    assert!(keep.is_empty());
}

#[test]
fn separate_delivery_requeues_the_rest() {
    let q = vec![
        msg(1, QueuedMessageMode::FollowUp),
        msg(2, QueuedMessageMode::Steer),
        msg(3, QueuedMessageMode::FollowUp),
    ];
    let (send, keep) = drain_queue(q, QueueMode::All, QueueDelivery::Separate);
    assert_eq!(ids(&send), vec![2]);
    assert_eq!(ids(&keep), vec![1, 3]);
    let (send, keep) = drain_queue(Vec::new(), QueueMode::All, QueueDelivery::Separate);
    assert!(send.is_empty() && keep.is_empty());
}

#[test]
fn bounded_output_keeps_first_bytes() {
    let mut buf = Vec::new();
    let t = absorb_chunk(&mut buf, false, b"hello", 8);
    assert!(!t);
    assert_eq!(buf, b"hello".to_vec());
    let t = absorb_chunk(&mut buf, t, b"world", 8);
    assert!(t);
    assert_eq!(buf, b"hellowor".to_vec());
    let t = absorb_chunk(&mut buf, false, b"!", 8);
    assert!(t);
    assert_eq!(buf.len(), 8);
    assert_eq!(SHELL_COMMAND_OUTPUT_LIMIT, 1024 * 1024);
}

#[test]
fn title_and_queue_line_shapes() {
    assert_eq!(sanitize_title("  Fix \n the   bug "), "Fix the bug");
    assert_eq!(sanitize_title(" \t "), "Untitled task");
    assert_eq!(truncate_queue_line("abcdef", 6), "abcdef");
    assert_eq!(truncate_queue_line("abcdefgh", 6), "abc...");
    assert_eq!(truncate_queue_line("abcdefgh", 2), "..");
    assert_eq!(truncate_queue_line("abcdefgh", 0), "");
}

#[test]
fn remove_all_occurrences() {
    assert_eq!(remove_all_text("a--b----c", "--"), "abc");
    assert_eq!(remove_all_text("abc", "x"), "abc");
}

#[test]
fn answers_as_text() {
    assert_eq!(format_prompt_answer(&PromptAnswer::Single("yes".to_string())), "yes");
    assert_eq!(
        format_prompt_answer(&PromptAnswer::Multiple(names(&["a", "b"]))),
        "a, b"
    );
    assert_eq!(
        ask_user_result_text(&Vec::new()),
        "User has answered your questions. You can now continue with the user's answers in mind."
    );
    let answers = vec![
        ("Color?".to_string(), PromptAnswer::Single("red".to_string())),
        ("Sizes?".to_string(), PromptAnswer::Multiple(names(&["S", "M"]))),
    ];
    assert_eq!(
        ask_user_result_text(&answers),
        "User has answered your questions: \"Color?\"=\"red\", \"Sizes?\"=\"S, M\". You can now continue with the user's answers in mind."
    );
    let questions = names(&["Sizes?", "Missing?", "Color?"]);
    assert_eq!(
        opencode_question_answers(&questions, &answers),
        vec![names(&["S", "M"]), Vec::new(), names(&["red"])]
    );
}

#[test]
fn plan_decisions_as_text() {
    assert_eq!(
        exit_plan_result_text(false, Some("smaller steps".to_string()), "plan", "p.md"),
        "User feedback on plan: smaller steps"
    );
    assert_eq!(exit_plan_result_text(false, None, "plan", "p.md"), "User feedback on plan.");
    let approved = exit_plan_result_text(true, None, "1. do it", "plans/p.md");
    assert_eq!(
        approved,
        "User has approved your plan. You can now start coding. Start with updating your todo list if applicable\n\nYour plan has been saved to: plans/p.md\nYou can refer back to it if needed during implementation.\n\n## Approved Plan:\n1. do it"
    );
}

#[test]
fn adversarial_review_prompt_mentions_the_diff() {
    let p = build_adversarial_review_prompt();
    assert!(p.contains("gh pr diff"));
    assert!(!p.trim().is_empty());
}

#[test]
fn queue_editor_opens_on_newest() {
    assert_eq!(queue_editor_selection(0, None), None);
    assert_eq!(queue_editor_selection(3, None), Some(2));
    assert_eq!(queue_editor_selection(3, Some(0)), Some(0));
}
