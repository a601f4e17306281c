use conduit_ui::background::{archived_commit, project_removal_errors, WorkspaceRemoval};
use conduit_ui::command::longest_common_prefix;
use conduit_ui::workflow::{after_workspace_save, initial_workspace_message, workspace_naming, SaveStep, WorkspaceNaming};

fn removal(name: &str, git: Option<(Result<String, String>, Option<String>, Option<String>)>, archive_error: Option<&str>) -> WorkspaceRemoval {
    WorkspaceRemoval {
        name: name.to_string(),
        branch: format!("u/{name}"),
        git,
        archive_error: archive_error.map(|e| e.to_string()),
    }
}

#[test]
fn project_removal_reports_every_failed_step_in_order() {
    let workspaces = vec![
        removal("a", Some((Err("no sha".to_string()), Some("busy".to_string()), Some("gone".to_string()))), Some("locked")),
        removal("b", Some((Ok("abc".to_string()), None, None)), None),
        removal("c", None, Some("db")),
    ];
    let errors = project_removal_errors(&workspaces, Some("dir stuck".to_string()), Some("constraint".to_string()));
    assert_eq!(
        errors,
        vec![
            "Failed to read branch SHA for workspace 'a': no sha".to_string(),
            "Failed to remove worktree 'a': busy".to_string(),
            "Failed to delete branch 'u/a' for workspace 'a': gone".to_string(),
            "Failed to archive workspace 'a': locked".to_string(),
            "Failed to archive workspace 'c': db".to_string(),
            "dir stuck".to_string(),
            "Failed to delete repository from database: constraint".to_string(),
        ]
    );
    assert!(project_removal_errors(&vec![removal("b", Some((Ok("abc".to_string()), None, None)), None)], None, None).is_empty());
    assert_eq!(archived_commit(&Ok("abc".to_string())), Some("abc".to_string()));
    assert_eq!(archived_commit(&Err("x".to_string())), None);
}

fn named(n: WorkspaceNaming) -> Option<(String, String)> {
    match n {
        WorkspaceNaming::Named { name, branch_base } => Some((name, branch_base)),
        WorkspaceNaming::Generated => None,
    }
}

#[test]
fn workspaces_are_named_after_what_they_are_for() {
    assert_eq!(named(workspace_naming(Some(42), Some("add-x"), None)), Some(("gh#42".to_string(), "gh-42".to_string())));
    assert_eq!(named(workspace_naming(None, Some("add-x"), Some("s1"))), Some(("add-x".to_string(), "add-x".to_string())));
    assert_eq!(named(workspace_naming(None, None, Some("s1"))), Some(("s1".to_string(), "s1".to_string())));
    assert_eq!(named(workspace_naming(None, None, None)), None);
}

#[test]
fn spec_workspaces_start_with_a_summary_request() {
    assert_eq!(
        initial_workspace_message(Some("add-x"), Some("s1")).as_deref(),
        Some("I just created this workspace for openspec change `add-x`. Please read the spec files in `openspec/changes/add-x/` (proposal.md, design.md, and tasks.md) and give me a summary of what still needs to be done.")
    );
    assert_eq!(
        initial_workspace_message(None, Some("s1")).as_deref(),
        Some("I just created this workspace for spec `s1`. Please read `.specify/specs/s1/tasks.md` and give me a summary of what still needs to be done.")
    );
    assert_eq!(initial_workspace_message(None, None), None);
}

#[test]
fn failed_save_rolls_the_workspace_back() {
    assert!(matches!(after_workspace_save(None), SaveStep::Keep));
    match after_workspace_save(Some("disk full")) {
        SaveStep::RollBack { error } => assert_eq!(error, "Failed to save workspace to database: disk full"),
        SaveStep::Keep => panic!("expected a rollback"),
    }
}

#[test]
fn common_prefix_is_shared_and_longest() {
    let texts: Vec<Vec<char>> = ["éab", "éac", "éa"].iter().map(|t| t.chars().collect()).collect();
    let p: String = longest_common_prefix(&texts).into_iter().collect();
    assert_eq!(p, "éa");
    for t in &texts {
        let s: String = t.iter().collect();
        assert!(s.starts_with(&p));
    }
}
