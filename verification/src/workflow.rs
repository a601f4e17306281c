//! Decisions around git work: what the pull-request preflight leads to, and
//! the branch name a generated title renames the workspace branch to.
use vstd::prelude::*;
use crate::text::{chars_of, decimal, push_str, push_u64_decimal, string_from_str, text_equals};

verus! {

/// What the pull-request preflight found.
pub struct PrPreflight {
    pub gh_installed: bool,
    pub gh_authenticated: bool,
    pub on_main_branch: bool,
    pub branch_name: String,
    pub target_branch: String,
    pub uncommitted_count: usize,
    pub has_upstream: bool,
    /// The pull request of the branch, when the lookup answered:
    /// whether one exists, its number and its URL.
    pub existing_pr: Option<(bool, Option<u32>, Option<String>)>,
}

/// What the UI shows after the preflight.
pub enum PrPreflightOutcome {
    /// GitHub CLI is missing.
    MissingGh,
    /// GitHub CLI is not logged in.
    NotAuthenticated,
    /// The branch is the main branch; the message says so.
    OnMainBranch { message: String },
    /// A pull request exists: offer to open it.
    ExistingPr { message: String, url: String, number: Option<u32> },
    /// Ask to create one, with warnings about what will happen first.
    ConfirmCreate { message: String, warnings: Vec<String>, clear_stale_pr: bool },
}

/// The message for a main-branch preflight.
pub open spec fn main_branch_text(branch: Seq<char>) -> Seq<char> {
    "You're on the '"@ + branch + "' branch. Create a feature branch first."@
}

/// The message offering to open an existing pull request (number 0 when the
/// lookup gave none).
pub open spec fn existing_pr_text(number: Option<u32>, branch: Seq<char>) -> Seq<char> {
    "PR #"@ + decimal(match number { Some(n) => n as nat, None => 0 }) + " already exists for branch '"@ + branch
        + "'.\n\nOpen in browser?"@
}

/// The message of the creation dialog.
pub open spec fn create_pr_text(branch: Seq<char>, target: Seq<char>) -> Seq<char> {
    "Branch: "@ + branch + "\nTarget: "@ + target
}

/// The warnings of the creation dialog: files to auto-commit, a branch to
/// push.
pub open spec fn create_pr_warnings(uncommitted: usize, has_upstream: bool) -> Seq<Seq<char>> {
    (if uncommitted > 0 {
        seq![decimal(uncommitted as nat) + " file(s) will be auto-committed"@]
    } else {
        Seq::empty()
    }) + (if !has_upstream {
        seq!["Branch will be pushed to remote"@]
    } else {
        Seq::empty()
    })
}

/// Decides what the pull-request preflight leads to: missing or
/// unauthenticated GitHub CLI and the main branch stop it; an existing pull
/// request is offered for opening; otherwise creation is confirmed, and a
/// lookup that found no pull request clears a stale one.
pub fn pr_preflight_outcome(p: &PrPreflight) -> (o: PrPreflightOutcome)
    ensures
        !p.gh_installed ==> o == PrPreflightOutcome::MissingGh,
        p.gh_installed && !p.gh_authenticated ==> o == PrPreflightOutcome::NotAuthenticated,
        p.gh_installed && p.gh_authenticated && p.on_main_branch ==> (o matches PrPreflightOutcome::OnMainBranch { message } && message@ == main_branch_text(p.branch_name@)),
        p.gh_installed && p.gh_authenticated && !p.on_main_branch && (p.existing_pr matches Some((true, _, _))) ==> (o matches PrPreflightOutcome::ExistingPr { message, url, number }
            && message@ == existing_pr_text(p.existing_pr.unwrap().1, p.branch_name@)
            && number == p.existing_pr.unwrap().1
            && url@ == (match p.existing_pr.unwrap().2 { Some(u) => u@, None => "Unknown URL"@ })),
        p.gh_installed && p.gh_authenticated && !p.on_main_branch && !(p.existing_pr matches Some((true, _, _))) ==> (o matches PrPreflightOutcome::ConfirmCreate { message, warnings, clear_stale_pr }
            && message@ == create_pr_text(p.branch_name@, p.target_branch@)
            && warnings@.map_values(|w: String| w@) == create_pr_warnings(p.uncommitted_count, p.has_upstream)
            && clear_stale_pr == (p.existing_pr matches Some((false, _, _)))),
{
    if !p.gh_installed {
        return PrPreflightOutcome::MissingGh;
    }
    if !p.gh_authenticated {
        return PrPreflightOutcome::NotAuthenticated;
    }
    if p.on_main_branch {
        let mut m = string_from_str("You're on the '");
        push_str(&mut m, p.branch_name.as_str());
        push_str(&mut m, "' branch. Create a feature branch first.");
        return PrPreflightOutcome::OnMainBranch { message: m };
    }
    match &p.existing_pr {
        Some((true, number, url)) => {
            let mut m = string_from_str("PR #");
            let n: u32 = match number {
                Some(n) => *n,
                None => 0,
            };
            push_u64_decimal(&mut m, n as u64);
            push_str(&mut m, " already exists for branch '");
            push_str(&mut m, p.branch_name.as_str());
            push_str(&mut m, "'.\n\nOpen in browser?");
            let u = match url {
                Some(u) => u.clone(),
                None => string_from_str("Unknown URL"),
            };
            return PrPreflightOutcome::ExistingPr { message: m, url: u, number: *number };
        },
        _ => {},
    }
    let clear = match &p.existing_pr {
        Some((false, _, _)) => true,
        _ => false,
    };
    let mut warnings: Vec<String> = Vec::new();
    if p.uncommitted_count > 0 {
        let mut w = String::new();
        crate::text::push_decimal(&mut w, p.uncommitted_count);
        push_str(&mut w, " file(s) will be auto-committed");
        warnings.push(w);
    }
    if !p.has_upstream {
        warnings.push(string_from_str("Branch will be pushed to remote"));
    }
    proof {
        let expected = create_pr_warnings(p.uncommitted_count, p.has_upstream);
        assert(warnings@.map_values(|w: String| w@) =~= expected);
    }
    let mut m = string_from_str("Branch: ");
    push_str(&mut m, p.branch_name.as_str());
    push_str(&mut m, "\nTarget: ");
    push_str(&mut m, p.target_branch.as_str());
    PrPreflightOutcome::ConfirmCreate { message: m, warnings, clear_stale_pr: clear }
}

/// The branch a generated title renames the workspace branch to. The
/// current branch is the one git reports, else the one last known; with
/// none, or when the suffix fell back to `task`, nothing is renamed. The
/// name is `user/suffix`, or the suffix alone when the user name fell back
/// to `task`, and a rename happens only when it differs from the current
/// branch. `user` and `suffix` are the sanitized user name and title suffix.
pub open spec fn branch_rename(fresh: Seq<char>, known: Seq<char>, user: Seq<char>, suffix: Seq<char>) -> Option<Seq<char>> {
    let current = if fresh.len() == 0 { known } else { fresh };
    if current.len() == 0 || suffix == "task"@ {
        None
    } else {
        let name = if user == "task"@ { suffix } else { user + "/"@ + suffix };
        if name != current {
            Some(name)
        } else {
            None
        }
    }
}

/// Plans the branch rename after title generation.
pub fn plan_branch_rename(fresh: &str, known: &str, user: &str, suffix: &str) -> (r: Option<String>)
    ensures
        match r {
            Some(n) => branch_rename(fresh@, known@, user@, suffix@) == Some(n@),
            None => branch_rename(fresh@, known@, user@, suffix@).is_none(),
        },
{
    let current = if chars_of(fresh).len() == 0 { known } else { fresh };
    proof {
        reveal_strlit("task");
        reveal_strlit("/");
    }
    if chars_of(current).len() == 0 || text_equals(suffix, "task") {
        return None;
    }
    let name = if text_equals(user, "task") {
        string_from_str(suffix)
    } else {
        let mut n = string_from_str(user);
        push_str(&mut n, "/");
        push_str(&mut n, suffix);
        n
    };
    if text_equals(name.as_str(), current) {
        None
    } else {
        Some(name)
    }
}

/// The tab a pull request is created from: the tab that asked, when it
/// still works in the preflight's directory, else the first tab that does.
pub open spec fn pr_tab(dirs: Seq<Option<Seq<char>>>, asked: nat, dir: Seq<char>) -> Option<nat> {
    if asked < dirs.len() && dirs[asked as int] == Some(dir) {
        Some(asked)
    } else {
        first_tab_in(dirs, dir)
    }
}

/// The first tab whose working directory is `dir`.
pub open spec fn first_tab_in(dirs: Seq<Option<Seq<char>>>, dir: Seq<char>) -> Option<nat>
    decreases dirs.len(),
{
    if dirs.len() == 0 {
        None
    } else if dirs[0] == Some(dir) {
        Some(0)
    } else {
        match first_tab_in(dirs.drop_first(), dir) {
            Some(i) => Some(i + 1),
            None => None,
        }
    }
}

pub open spec fn dir_views(v: Seq<Option<String>>) -> Seq<Option<Seq<char>>> {
    v.map_values(|d: Option<String>| crate::text::opt_chars(d))
}

fn same_dir(d: &Option<String>, dir: &str) -> (b: bool)
    ensures
        b == (crate::text::opt_chars(*d) == Some(dir@)),
{
    match d {
        Some(t) => text_equals(t.as_str(), dir),
        None => false,
    }
}

/// Finds the tab to create a pull request from; `dirs` holds each tab's
/// working directory. None when no tab works there.
pub fn pr_target_tab(dirs: &Vec<Option<String>>, asked: usize, dir: &str) -> (r: Option<usize>)
    ensures
        match r {
            Some(i) => pr_tab(dir_views(dirs@), asked as nat, dir@) == Some(i as nat),
            None => pr_tab(dir_views(dirs@), asked as nat, dir@) is None,
        },
{
    let ghost ds = dir_views(dirs@);
    if asked < dirs.len() && same_dir(&dirs[asked], dir) {
        return Some(asked);
    }
    let mut i: usize = 0;
    assert(ds.skip(0) =~= ds);
    while i < dirs.len()
        invariant
            i <= dirs.len(),
            ds == dir_views(dirs@),
            !((asked as nat) < ds.len() && ds[asked as int] == Some(dir@)),
            first_tab_in(ds, dir@) == (match first_tab_in(ds.skip(i as int), dir@) {
                Some(j) => Some((j + i) as nat),
                None => None::<nat>,
            }),
        decreases dirs.len() - i,
    {
        proof {
            assert(ds.skip(i as int)[0] == ds[i as int]);
            assert(ds.skip(i as int).drop_first() =~= ds.skip(i + 1));
        }
        if same_dir(&dirs[i], dir) {
            assert(first_tab_in(ds.skip(i as int), dir@) == Some(0nat));
            return Some(i);
        }
        i = i + 1;
    }
    proof {
        assert(ds.skip(i as int) =~= Seq::<Option<Seq<char>>>::empty());
    }
    None
}

/// The error of a failed clone: the last line of git's trimmed error
/// output, or `unknown error` when it printed nothing.
pub open spec fn clone_failure_text(stderr: Seq<char>) -> Seq<char> {
    let lines = crate::transcript::text_lines(crate::text::trimmed(stderr));
    "git clone failed: "@ + if lines.len() > 0 {
        lines.last()
    } else {
        "unknown error"@
    }
}

/// Writes the error of a failed clone from git's error output.
pub fn clone_failure_message(stderr: &str) -> (s: String)
    ensures
        s@ == clone_failure_text(stderr@),
{
    let cs = chars_of(stderr);
    let t = crate::text::trim_chars(&cs);
    let trimmed = crate::text::string_from_chars(t.as_slice());
    let lines = crate::transcript::lines_of(trimmed.as_str());
    let mut s = string_from_str("git clone failed: ");
    if lines.len() > 0 {
        proof {
            assert(lines@.map_values(|l: String| l@).last() == lines@[lines.len() - 1]@);
        }
        push_str(&mut s, lines[lines.len() - 1].as_str());
    } else {
        push_str(&mut s, "unknown error");
    }
    s
}


// ---------------------------------------------------------------------------
// Creating a workspace
// ---------------------------------------------------------------------------

/// How a new workspace is named: after what it is created for, or with a
/// generated name (`Generated`, the branch then takes that name too).
pub enum WorkspaceNaming {
    /// The workspace's name, and the name its branch is made from.
    Named { name: String, branch_base: String },
    Generated,
}

pub open spec fn naming_view(n: WorkspaceNaming) -> Option<(Seq<char>, Seq<char>)> {
    match n {
        WorkspaceNaming::Named { name, branch_base } => Some((name@, branch_base@)),
        WorkspaceNaming::Generated => None,
    }
}

/// A workspace for a GitHub issue is `gh#N` on a `gh-N` branch; one for a
/// spec change or a spec takes its id for both; the issue goes first, then
/// the change, then the spec; otherwise the name is generated.
pub open spec fn workspace_naming_for(issue: Option<u64>, change_id: Option<Seq<char>>, spec_id: Option<Seq<char>>) -> Option<(Seq<char>, Seq<char>)> {
    match issue {
        Some(n) => Some(("gh#"@ + decimal(n as nat), "gh-"@ + decimal(n as nat))),
        None => match change_id {
            Some(c) => Some((c, c)),
            None => match spec_id {
                Some(t) => Some((t, t)),
                None => None,
            },
        },
    }
}

/// Decides how a new workspace is named.
pub fn workspace_naming(issue: Option<u64>, change_id: Option<&str>, spec_id: Option<&str>) -> (r: WorkspaceNaming)
    ensures
        naming_view(r) == workspace_naming_for(
            issue,
            match change_id { Some(c) => Some(c@), None => None },
            match spec_id { Some(t) => Some(t@), None => None },
        ),
{
    match issue {
        Some(n) => {
            let mut name = string_from_str("gh#");
            push_u64_decimal(&mut name, n);
            let mut base = string_from_str("gh-");
            push_u64_decimal(&mut base, n);
            WorkspaceNaming::Named { name, branch_base: base }
        },
        None => match change_id {
            Some(c) => WorkspaceNaming::Named { name: string_from_str(c), branch_base: string_from_str(c) },
            None => match spec_id {
                Some(t) => WorkspaceNaming::Named { name: string_from_str(t), branch_base: string_from_str(t) },
                None => WorkspaceNaming::Generated,
            },
        },
    }
}

/// The first message sent in a workspace created for a spec change or a
/// spec (the change goes first): a request to summarise what is left.
pub open spec fn initial_message_for(change_id: Option<Seq<char>>, spec_id: Option<Seq<char>>) -> Option<Seq<char>> {
    match change_id {
        Some(c) => Some(
            "I just created this workspace for openspec change `"@ + c
                + "`. Please read the spec files in `openspec/changes/"@ + c
                + "/` (proposal.md, design.md, and tasks.md) and give me a summary of what still needs to be done."@,
        ),
        None => match spec_id {
            Some(t) => Some(
                "I just created this workspace for spec `"@ + t + "`. Please read `.specify/specs/"@ + t
                    + "/tasks.md` and give me a summary of what still needs to be done."@,
            ),
            None => None,
        },
    }
}

/// Writes the first message of a workspace created for a spec.
pub fn initial_workspace_message(change_id: Option<&str>, spec_id: Option<&str>) -> (r: Option<String>)
    ensures
        opt_str_view(r) == initial_message_for(
            match change_id { Some(c) => Some(c@), None => None },
            match spec_id { Some(t) => Some(t@), None => None },
        ),
{
    match change_id {
        Some(c) => {
            let mut m = string_from_str("I just created this workspace for openspec change `");
            push_str(&mut m, c);
            push_str(&mut m, "`. Please read the spec files in `openspec/changes/");
            push_str(&mut m, c);
            push_str(&mut m, "/` (proposal.md, design.md, and tasks.md) and give me a summary of what still needs to be done.");
            Some(m)
        },
        None => match spec_id {
            Some(t) => {
                let mut m = string_from_str("I just created this workspace for spec `");
                push_str(&mut m, t);
                push_str(&mut m, "`. Please read `.specify/specs/");
                push_str(&mut m, t);
                push_str(&mut m, "/tasks.md` and give me a summary of what still needs to be done.");
                Some(m)
            },
            None => None,
        },
    }
}

pub open spec fn opt_str_view(o: Option<String>) -> Option<Seq<char>> {
    match o {
        Some(s) => Some(s@),
        None => None,
    }
}

/// What follows saving a new workspace to the database.
pub enum SaveStep {
    /// Saved: the workspace's setup script runs.
    Keep,
    /// Not saved: the new worktree is removed and its branch deleted (each
    /// attempted whatever the other gives), and the creation fails with
    /// this error.
    RollBack { error: String },
}

pub open spec fn save_step_view(s: SaveStep) -> Option<Seq<char>> {
    match s {
        SaveStep::Keep => None,
        SaveStep::RollBack { error } => Some(error@),
    }
}

/// Decides what follows saving a new workspace: a failed save rolls the
/// workspace back and reports the database error.
pub fn after_workspace_save(save_error: Option<&str>) -> (r: SaveStep)
    ensures
        save_step_view(r) == (match save_error {
            Some(e) => Some("Failed to save workspace to database: "@ + e@),
            None => None::<Seq<char>>,
        }),
{
    match save_error {
        Some(e) => {
            let mut m = string_from_str("Failed to save workspace to database: ");
            push_str(&mut m, e);
            SaveStep::RollBack { error: m }
        },
        None => SaveStep::Keep,
    }
}

} // verus!
