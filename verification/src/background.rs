//! What the UI makes of the results of background work: the fork and
//! project-removal dialogs built from their preflights, the sidebar after a
//! project is gone, and what follows a finished work-complete action.
use vstd::prelude::*;
use crate::command::InputMode;
use crate::events::ConfirmationType;
use crate::pr::{find, find_in, lemma_find_fits};
use crate::prompt::{adversarial_review_text, build_adversarial_review_prompt};
use crate::text::{chars_of, decimal, opt_chars, push_str, push_u64_decimal, string_from_chars, string_from_str, views};

verus! {

// ---------------------------------------------------------------------------
// Forking a session
// ---------------------------------------------------------------------------

/// The fork confirmation dialog.
pub struct ForkDialog {
    pub message: String,
    pub warnings: Vec<String>,
    pub confirmation: ConfirmationType,
}

/// The dialog text: the base branch and the seed's size against the
/// context window, with the usage already written as a whole percentage.
pub open spec fn fork_message_text(branch: Seq<char>, tokens: u64, window: u64, pct: Seq<char>) -> Seq<char> {
    "Fork this session into a new workspace based on branch \""@ + branch + "\".\nSeed size: "@ + decimal(
        tokens as nat,
    ) + " / "@ + decimal(window as nat) + " tokens (~"@ + pct + "%)."@
}

/// The dialog's warnings: uncommitted changes (with the advice to commit
/// first), then a seed that overflows the context window or fills most of it.
pub open spec fn fork_warnings(dirty: Option<Seq<char>>, exceeds: bool, high: bool, tokens: u64, window: u64, pct: Seq<char>) -> Seq<Seq<char>> {
    (match dirty {
        Some(d) => seq![d, "Commit before forking to preserve changes."@],
        None => Seq::empty(),
    }) + (if exceeds {
        seq![
            "Seed exceeds context window ("@ + decimal(tokens as nat) + " / "@ + decimal(window as nat)
                + " tokens, ~"@ + pct + "%)."@,
        ]
    } else if high {
        seq![
            "Seed uses ~"@ + pct + "% of context window ("@ + decimal(tokens as nat) + " / "@ + decimal(
                window as nat,
            ) + ")."@,
        ]
    } else {
        Seq::empty()
    })
}

/// Danger when the seed overflows the window; a warning for uncommitted
/// changes or a seed that fills most of it; else information.
pub open spec fn fork_confirmation(dirty: bool, exceeds: bool, high: bool) -> ConfirmationType {
    if exceeds {
        ConfirmationType::Danger
    } else if dirty || high {
        ConfirmationType::Warning
    } else {
        ConfirmationType::Info
    }
}

/// Builds the fork confirmation dialog from the preflight. `exceeds` and
/// `high` tell whether the seed takes at least all, or at least 80 percent,
/// of the context window, and `pct` is that share as a whole percentage.
pub fn fork_dialog(
    base_branch: &str,
    dirty_warning: Option<String>,
    exceeds: bool,
    high: bool,
    tokens: u64,
    window: u64,
    pct: &str,
) -> (d: ForkDialog)
    ensures
        d.message@ == fork_message_text(base_branch@, tokens, window, pct@),
        views(d.warnings@) == fork_warnings(opt_chars(dirty_warning), exceeds, high, tokens, window, pct@),
        d.confirmation == fork_confirmation(dirty_warning is Some, exceeds, high),
{
    let mut message = string_from_str("Fork this session into a new workspace based on branch \"");
    push_str(&mut message, base_branch);
    push_str(&mut message, "\".\nSeed size: ");
    push_u64_decimal(&mut message, tokens);
    push_str(&mut message, " / ");
    push_u64_decimal(&mut message, window);
    push_str(&mut message, " tokens (~");
    push_str(&mut message, pct);
    push_str(&mut message, "%).");
    let has_dirty = dirty_warning.is_some();
    let mut warnings: Vec<String> = Vec::new();
    let ghost dirty_view = opt_chars(dirty_warning);
    match dirty_warning {
        Some(d) => {
            warnings.push(d);
            warnings.push(string_from_str("Commit before forking to preserve changes."));
        },
        None => {},
    }
    let ghost first = views(warnings@);
    assert(first =~= (match dirty_view {
        Some(d) => seq![d, "Commit before forking to preserve changes."@],
        None => Seq::<Seq<char>>::empty(),
    }));
    if exceeds {
        let mut w = string_from_str("Seed exceeds context window (");
        push_u64_decimal(&mut w, tokens);
        push_str(&mut w, " / ");
        push_u64_decimal(&mut w, window);
        push_str(&mut w, " tokens, ~");
        push_str(&mut w, pct);
        push_str(&mut w, "%).");
        warnings.push(w);
    } else if high {
        let mut w = string_from_str("Seed uses ~");
        push_str(&mut w, pct);
        push_str(&mut w, "% of context window (");
        push_u64_decimal(&mut w, tokens);
        push_str(&mut w, " / ");
        push_u64_decimal(&mut w, window);
        push_str(&mut w, ").");
        warnings.push(w);
    }
    assert(views(warnings@) =~= fork_warnings(dirty_view, exceeds, high, tokens, window, pct@));
    let confirmation = if exceeds {
        ConfirmationType::Danger
    } else if has_dirty || high {
        ConfirmationType::Warning
    } else {
        ConfirmationType::Info
    };
    ForkDialog { message, warnings, confirmation }
}

/// The error shown when a fork failed after its workspace was created; when
/// removing that workspace failed too, the user is told to remove it.
pub open spec fn fork_failure_text(err: Seq<char>, cleanup: Option<Seq<char>>) -> Seq<char> {
    match cleanup {
        Some(c) => err + "\n\nWorkspace cleanup failed: "@ + c + ". You may need to manually remove it from the sidebar."@,
        None => err,
    }
}

/// Writes the error of a failed fork.
pub fn fork_failure_message(err: &str, cleanup_error: Option<&str>) -> (s: String)
    ensures
        s@ == fork_failure_text(err@, match cleanup_error { Some(c) => Some(c@), None => None }),
{
    let mut s = string_from_str(err);
    match cleanup_error {
        Some(c) => {
            push_str(&mut s, "\n\nWorkspace cleanup failed: ");
            push_str(&mut s, c);
            push_str(&mut s, ". You may need to manually remove it from the sidebar.");
        },
        None => {},
    }
    s
}

// ---------------------------------------------------------------------------
// Removing a project
// ---------------------------------------------------------------------------

/// The title of the project-removal confirmation.
pub fn remove_project_title(name: &str) -> (s: String)
    ensures
        s@ == "Remove \""@ + name@ + "\"?"@,
{
    let mut s = string_from_str("Remove \"");
    push_str(&mut s, name);
    push_str(&mut s, "\"?");
    s
}

/// What the removal preflight found: its warnings, and whether any workspace
/// has uncommitted changes or an unmerged branch.
pub struct RemovalPreflight {
    pub warnings: Vec<String>,
    pub has_dirty: bool,
    pub has_unmerged: bool,
}

/// Some workspace whose branch status could be read has uncommitted changes.
pub open spec fn any_dirty(statuses: Seq<Option<(bool, bool)>>) -> bool {
    exists|i: int| 0 <= i < statuses.len() && (#[trigger] statuses[i] matches Some((true, _)))
}

/// Some workspace whose branch status could be read is not merged.
pub open spec fn any_unmerged(statuses: Seq<Option<(bool, bool)>>) -> bool {
    exists|i: int| 0 <= i < statuses.len() && (#[trigger] statuses[i] matches Some((_, false)))
}

/// The warnings of the removal dialog: how many workspaces are archived,
/// then uncommitted changes, then unmerged branches.
pub open spec fn removal_warnings(count: nat, dirty: bool, unmerged: bool) -> Seq<Seq<char>> {
    (if count > 0 {
        seq![decimal(count) + " workspace"@ + (if count == 1 { Seq::empty() } else { "s"@ }) + " will be archived"@]
    } else {
        Seq::empty()
    }) + (if dirty {
        seq!["Some workspaces have uncommitted changes"@]
    } else {
        Seq::empty()
    }) + (if unmerged {
        seq!["Some branches are not merged to main"@]
    } else {
        Seq::empty()
    })
}

/// Sums up the branch status of a project's workspaces before removal: each
/// entry is (uncommitted changes, merged), or none when the status could not
/// be read.
pub fn removal_preflight(statuses: &Vec<Option<(bool, bool)>>) -> (r: RemovalPreflight)
    ensures
        r.has_dirty == any_dirty(statuses@),
        r.has_unmerged == any_unmerged(statuses@),
        views(r.warnings@) == removal_warnings(statuses@.len(), any_dirty(statuses@), any_unmerged(statuses@)),
{
    let mut has_dirty = false;
    let mut has_unmerged = false;
    let mut i: usize = 0;
    while i < statuses.len()
        invariant
            i <= statuses.len(),
            has_dirty == exists|k: int| 0 <= k < i && (#[trigger] statuses@[k] matches Some((true, _))),
            has_unmerged == exists|k: int| 0 <= k < i && (#[trigger] statuses@[k] matches Some((_, false))),
        decreases statuses.len() - i,
    {
        match statuses[i] {
            Some((dirty, merged)) => {
                if dirty {
                    has_dirty = true;
                }
                if !merged {
                    has_unmerged = true;
                }
            },
            None => {},
        }
        i = i + 1;
    }
    let count = statuses.len();
    let mut warnings: Vec<String> = Vec::new();
    if count > 0 {
        let mut w = String::new();
        crate::text::push_decimal(&mut w, count);
        push_str(&mut w, " workspace");
        if count != 1 {
            push_str(&mut w, "s");
        }
        push_str(&mut w, " will be archived");
        assert(w@ =~= decimal(count as nat) + " workspace"@ + (if count == 1 { Seq::<char>::empty() } else { "s"@ }) + " will be archived"@);
        warnings.push(w);
    }
    if has_dirty {
        warnings.push(string_from_str("Some workspaces have uncommitted changes"));
    }
    if has_unmerged {
        warnings.push(string_from_str("Some branches are not merged to main"));
    }
    assert(views(warnings@) =~= removal_warnings(count as nat, has_dirty, has_unmerged));
    RemovalPreflight { warnings, has_dirty, has_unmerged }
}

/// The sidebar after a project was removed.
#[derive(PartialEq, Eq, Structural, Clone, Copy, Debug)]
pub struct AfterRemoval {
    /// The selected row of the sidebar tree.
    pub selection: usize,
    /// No project is left: the first-time splash shows again.
    pub show_splash: bool,
    /// The mode to switch to; none when an error dialog reports failures.
    pub mode: Option<InputMode>,
}

/// The selection moves up one row (staying within the rows left) and the
/// keyboard returns to the sidebar; with nothing left the splash shows and
/// the keyboard returns to the chat. Errors keep their dialog in charge.
pub open spec fn after_removal(selection: usize, visible_count: usize, has_errors: bool) -> AfterRemoval {
    if visible_count > 0 {
        let up: usize = if selection > 0 { (selection - 1) as usize } else { 0 };
        AfterRemoval {
            selection: if up < visible_count { up } else { (visible_count - 1) as usize },
            show_splash: false,
            mode: if has_errors { None } else { Some(InputMode::SidebarNavigation) },
        }
    } else {
        AfterRemoval { selection: 0, show_splash: true, mode: if has_errors { None } else { Some(InputMode::Normal) } }
    }
}

/// Decides the sidebar state after a project removal: `selection` is the
/// row selected before, `visible_count` the rows shown after the refresh.
pub fn project_removed(selection: usize, visible_count: usize, has_errors: bool) -> (r: AfterRemoval)
    ensures
        r == after_removal(selection, visible_count, has_errors),
        visible_count > 0 ==> r.selection < visible_count,
{
    if visible_count > 0 {
        let up: usize = if selection > 0 { selection - 1 } else { 0 };
        AfterRemoval {
            selection: if up < visible_count { up } else { visible_count - 1 },
            show_splash: false,
            mode: if has_errors { None } else { Some(InputMode::SidebarNavigation) },
        }
    } else {
        AfterRemoval { selection: 0, show_splash: true, mode: if has_errors { None } else { Some(InputMode::Normal) } }
    }
}

/// What removing one workspace of a project came to: its name and branch;
/// the git work, when the project's location and settings are known (the
/// branch's commit or the error reading it, then the errors removing the
/// worktree and deleting the branch); and the error archiving it.
pub struct WorkspaceRemoval {
    pub name: String,
    pub branch: String,
    pub git: Option<(Result<String, String>, Option<String>, Option<String>)>,
    pub archive_error: Option<String>,
}

/// The error lines of one workspace's removal, in the order the steps run.
pub open spec fn workspace_removal_errors(w: WorkspaceRemoval) -> Seq<Seq<char>> {
    (match w.git {
        Some((sha, remove_error, branch_error)) => (match sha {
            Ok(_) => Seq::empty(),
            Err(e) => seq!["Failed to read branch SHA for workspace '"@ + w.name@ + "': "@ + e@],
        }) + (match remove_error {
            Some(e) => seq!["Failed to remove worktree '"@ + w.name@ + "': "@ + e@],
            None => Seq::empty(),
        }) + (match branch_error {
            Some(e) => seq!["Failed to delete branch '"@ + w.branch@ + "' for workspace '"@ + w.name@ + "': "@ + e@],
            None => Seq::empty(),
        }),
        None => Seq::empty(),
    }) + (match w.archive_error {
        Some(e) => seq!["Failed to archive workspace '"@ + w.name@ + "': "@ + e@],
        None => Seq::empty(),
    })
}

/// The error lines of all the workspaces, workspace by workspace.
pub open spec fn all_removal_errors(ws: Seq<WorkspaceRemoval>) -> Seq<Seq<char>>
    decreases ws.len(),
{
    if ws.len() == 0 {
        Seq::empty()
    } else {
        all_removal_errors(ws.drop_last()) + workspace_removal_errors(ws.last())
    }
}

/// What a project removal reports: the errors of each workspace, then the
/// error removing the project's workspaces directory, then the error
/// deleting the project from the database.
pub open spec fn removal_report(ws: Seq<WorkspaceRemoval>, dir_error: Option<Seq<char>>, delete_error: Option<Seq<char>>) -> Seq<Seq<char>> {
    all_removal_errors(ws) + (match dir_error {
        Some(e) => seq![e],
        None => Seq::empty(),
    }) + (match delete_error {
        Some(e) => seq!["Failed to delete repository from database: "@ + e],
        None => Seq::empty(),
    })
}

/// The commit a workspace is archived with: its branch's, when it was read.
pub fn archived_commit(sha: &Result<String, String>) -> (r: Option<String>)
    ensures
        opt_chars(r) == (match sha {
            Ok(s) => Some(s@),
            Err(_) => None::<Seq<char>>,
        }),
{
    match sha {
        Ok(s) => Some(s.clone()),
        Err(_) => None,
    }
}

fn push_line(errors: &mut Vec<String>, line: String)
    ensures
        views(final(errors)@) == views(old(errors)@).push(line@),
{
    let ghost before = errors@;
    errors.push(line);
    assert(views(errors@) =~= views(before).push(line@));
}

fn workspace_errors_into(errors: &mut Vec<String>, w: &WorkspaceRemoval)
    ensures
        views(final(errors)@) == views(old(errors)@) + workspace_removal_errors(*w),
{
    let ghost start = views(errors@);
    match &w.git {
        Some((sha, remove_error, branch_error)) => {
            match sha {
                Ok(_) => {},
                Err(e) => {
                    let mut m = string_from_str("Failed to read branch SHA for workspace '");
                    push_str(&mut m, w.name.as_str());
                    push_str(&mut m, "': ");
                    push_str(&mut m, e.as_str());
                    push_line(errors, m);
                },
            }
            match remove_error {
                Some(e) => {
                    let mut m = string_from_str("Failed to remove worktree '");
                    push_str(&mut m, w.name.as_str());
                    push_str(&mut m, "': ");
                    push_str(&mut m, e.as_str());
                    push_line(errors, m);
                },
                None => {},
            }
            match branch_error {
                Some(e) => {
                    let mut m = string_from_str("Failed to delete branch '");
                    push_str(&mut m, w.branch.as_str());
                    push_str(&mut m, "' for workspace '");
                    push_str(&mut m, w.name.as_str());
                    push_str(&mut m, "': ");
                    push_str(&mut m, e.as_str());
                    push_line(errors, m);
                },
                None => {},
            }
        },
        None => {},
    }
    match &w.archive_error {
        Some(e) => {
            let mut m = string_from_str("Failed to archive workspace '");
            push_str(&mut m, w.name.as_str());
            push_str(&mut m, "': ");
            push_str(&mut m, e.as_str());
            push_line(errors, m);
        },
        None => {},
    }
    assert(views(errors@) =~= start + workspace_removal_errors(*w));
}

/// Accounts for a project removal: every failed step of every workspace,
/// then the directory and database failures, in the order they happened.
pub fn project_removal_errors(workspaces: &Vec<WorkspaceRemoval>, dir_error: Option<String>, delete_error: Option<String>) -> (errors: Vec<String>)
    ensures
        views(errors@) == removal_report(workspaces@, opt_chars(dir_error), opt_chars(delete_error)),
{
    let mut errors: Vec<String> = Vec::new();
    let mut i: usize = 0;
    while i < workspaces.len()
        invariant
            i <= workspaces.len(),
            views(errors@) == all_removal_errors(workspaces@.take(i as int)),
        decreases workspaces.len() - i,
    {
        proof {
            assert(workspaces@.take(i + 1).drop_last() =~= workspaces@.take(i as int));
            assert(workspaces@.take(i + 1).last() == workspaces@[i as int]);
        }
        workspace_errors_into(&mut errors, &workspaces[i]);
        i = i + 1;
    }
    assert(workspaces@.take(workspaces.len() as int) =~= workspaces@);
    let ghost mid = views(errors@);
    match dir_error {
        Some(e) => push_line(&mut errors, e),
        None => {},
    }
    match delete_error {
        Some(e) => {
            let mut m = string_from_str("Failed to delete repository from database: ");
            push_str(&mut m, e.as_str());
            push_line(&mut errors, m);
        },
        None => {},
    }
    assert(views(errors@) =~= removal_report(workspaces@, opt_chars(dir_error), opt_chars(delete_error)));
    errors
}

// ---------------------------------------------------------------------------
// Work complete
// ---------------------------------------------------------------------------

/// The actions the work-complete dialog can run.
#[derive(PartialEq, Eq, Structural, Clone, Copy, Debug)]
pub enum WorkAction {
    Commit,
    Push,
    OpenPr,
    MergePr,
    CloseIssue,
    ArchiveSpec,
    Archive,
    AdversarialReview,
    ShowRemainingTasks,
}

/// What follows a work-complete action that succeeded.
pub enum WorkFollowUp {
    /// The workspace was archived: its tabs close and the dialog closes.
    Archived,
    /// Watch the checks of the pull request at this URL.
    CiStarted { pr_url: String },
    /// Show the action's log.
    Completed,
}

/// The URL in a log line that reports a created pull request: the text after
/// the first `: ` that follows `Created PR #`.
pub open spec fn url_in_line(l: Seq<char>) -> Option<Seq<char>> {
    match find(l, "Created PR #"@) {
        Some(i) => {
            let rest = l.skip(i as int);
            match find(rest, ": "@) {
                Some(j) => Some(rest.skip(j as int + 2)),
                None => None,
            }
        },
        None => None,
    }
}

/// The URL of the first log line that reports a created pull request.
pub open spec fn url_in_log(lines: Seq<Seq<char>>) -> Option<Seq<char>>
    decreases lines.len(),
{
    if lines.len() == 0 {
        None
    } else {
        match url_in_line(lines[0]) {
            Some(u) => Some(u),
            None => url_in_log(lines.drop_first()),
        }
    }
}

fn chars_from(v: &Vec<char>, k: usize) -> (r: Vec<char>)
    requires
        k <= v.len(),
    ensures
        r@ == v@.skip(k as int),
{
    let mut r: Vec<char> = Vec::new();
    let mut i: usize = k;
    while i < v.len()
        invariant
            k <= i <= v.len(),
            r@ == v@.subrange(k as int, i as int),
        decreases v.len() - i,
    {
        r.push(v[i]);
        i = i + 1;
        assert(r@ =~= v@.subrange(k as int, i as int));
    }
    assert(v@.subrange(k as int, v.len() as int) =~= v@.skip(k as int));
    r
}

fn url_of_line(line: &str) -> (r: Option<String>)
    ensures
        opt_chars(r) == url_in_line(line@),
{
    let cs = chars_of(line);
    let marker = chars_of("Created PR #");
    let sep = chars_of(": ");
    proof {
        reveal_strlit(": ");
    }
    match find_in(&cs, &marker) {
        None => None,
        Some(i) => {
            proof {
                lemma_find_fits(cs@, marker@);
            }
            let rest = chars_from(&cs, i);
            match find_in(&rest, &sep) {
                None => None,
                Some(j) => {
                    proof {
                        lemma_find_fits(rest@, sep@);
                    }
                    let tail = chars_from(&rest, j + 2);
                    Some(string_from_chars(tail.as_slice()))
                },
            }
        },
    }
}

/// Finds the URL of the pull request that an action's log reports created.
pub fn pr_url_from_log(lines: &Vec<String>) -> (r: Option<String>)
    ensures
        opt_chars(r) == url_in_log(views(lines@)),
{
    let mut i: usize = 0;
    assert(views(lines@).skip(0) =~= views(lines@));
    while i < lines.len()
        invariant
            i <= lines.len(),
            url_in_log(views(lines@)) == url_in_log(views(lines@).skip(i as int)),
        decreases lines.len() - i,
    {
        let ghost rest = views(lines@).skip(i as int);
        proof {
            assert(rest[0] == lines@[i as int]@);
            assert(rest.drop_first() =~= views(lines@).skip(i + 1));
        }
        let found = url_of_line(lines[i].as_str());
        if found.is_some() {
            return found;
        }
        i = i + 1;
    }
    proof {
        assert(views(lines@).skip(i as int).len() == 0);
    }
    None
}

pub open spec fn follow_up_view(f: WorkFollowUp) -> Option<Option<Seq<char>>> {
    match f {
        WorkFollowUp::Archived => None,
        WorkFollowUp::CiStarted { pr_url } => Some(Some(pr_url@)),
        WorkFollowUp::Completed => Some(None),
    }
}

/// After an archive the workspace's tabs close; after opening a pull
/// request its checks are watched when the log names its URL; after a push
/// the checks of the branch's open pull request are watched, when it has
/// one; any other action shows its log.
pub open spec fn follow_up(action: WorkAction, log: Seq<Seq<char>>, open_pr_url: Option<Seq<char>>) -> Option<Option<Seq<char>>> {
    match action {
        WorkAction::Archive => None,
        WorkAction::OpenPr => Some(url_in_log(log)),
        WorkAction::Push => Some(open_pr_url),
        _ => Some(None),
    }
}

/// Decides what follows a work-complete action that succeeded with the given
/// log; `open_pr_url` is the URL of the branch's open pull request, if any.
pub fn work_action_follow_up(action: WorkAction, log: &Vec<String>, open_pr_url: Option<String>) -> (f: WorkFollowUp)
    ensures
        follow_up_view(f) == follow_up(action, views(log@), opt_chars(open_pr_url)),
{
    match action {
        WorkAction::Archive => WorkFollowUp::Archived,
        WorkAction::OpenPr => match pr_url_from_log(log) {
            Some(u) => WorkFollowUp::CiStarted { pr_url: u },
            None => WorkFollowUp::Completed,
        },
        WorkAction::Push => match open_pr_url {
            Some(u) => WorkFollowUp::CiStarted { pr_url: u },
            None => WorkFollowUp::Completed,
        },
        _ => WorkFollowUp::Completed,
    }
}

/// The prompt the work-complete dialog sends to the agent: the adversarial
/// review when that action asked for it, otherwise the request for the
/// linked spec's incomplete tasks; nothing without a spec.
pub open spec fn work_agent_prompt(pending: Option<WorkAction>, change_id: Option<Seq<char>>) -> Option<Seq<char>> {
    if pending == Some(WorkAction::AdversarialReview) {
        Some(adversarial_review_text())
    } else {
        match change_id {
            Some(c) => Some("show incomplete tasks in "@ + c),
            None => None,
        }
    }
}

/// Builds the prompt the work-complete dialog sends to the agent.
pub fn work_agent_prompt_for(pending: Option<WorkAction>, change_id: Option<&str>) -> (r: Option<String>)
    ensures
        opt_chars(r) == work_agent_prompt(pending, match change_id { Some(c) => Some(c@), None => None }),
{
    if pending == Some(WorkAction::AdversarialReview) {
        return Some(build_adversarial_review_prompt());
    }
    match change_id {
        Some(c) => {
            let mut p = string_from_str("show incomplete tasks in ");
            push_str(&mut p, c);
            Some(p)
        },
        None => None,
    }
}

} // verus!
