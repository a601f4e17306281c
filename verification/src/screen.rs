//! The state of the screen that the application's handlers change: the
//! input mode, the confirmation, error and missing-tool dialogs, the footer
//! message, the command line, the model picker, the tabs and the pending
//! fork; and the handlers of finished background work, clicks and typed
//! commands that change it.
use vstd::prelude::*;
use crate::agent::{contains_agent, handoff_provider, model_picker_providers, picker_providers, preferred_provider_for_handoff, AgentType, Tool};
use crate::background::{after_removal, fork_confirmation, fork_dialog, fork_message_text, fork_warnings, project_removed, remove_project_title, AfterRemoval};
use crate::command::{command_outcome_kind, outcome_kind, parse_command, CommandKind, CommandOutcome, InputMode};
use crate::session::{effect_view, Effect, EffectView};
use crate::tabs::{find_tab_for_workspace, first_tab_of};
use crate::workflow::PrPreflightOutcome;
use crate::dialogs::{dismissal, dismiss_confirmation, ConfirmationKind, ModelPickerContext};
use crate::events::{apply_agent_event, removal_confirmation_type, removal_severity, turn_step, effects_view, AgentEventKind, ConfirmationType, TurnEffects, TurnState};
use crate::persistence::TimedMessage;
use crate::text::{join_texts, join_with, opt_chars, string_from_str, views};

verus! {

// ---------------------------------------------------------------------------
// Dialogs
// ---------------------------------------------------------------------------

/// What a confirmation dialog asks about, with what its answer acts on.
pub enum DialogContext {
    CreatePullRequest { tab_index: usize, working_dir: String },
    OpenExistingPr { working_dir: String, pr_url: String },
    ForkSession { parent_workspace_id: u128, base_branch: String },
    ForkSessionPreflightInProgress { parent_workspace_id: u128 },
    SteerFallback { message_id: u128 },
    RemoveProject { repo_id: u128 },
    RemoveProjectPreflightInProgress { repo_id: u128 },
    SelectWorkspaceMode { repo_id: u128 },
    Quit,
}

/// The kind of question, without what it acts on.
pub open spec fn kind_of(c: Option<DialogContext>) -> Option<ConfirmationKind> {
    match c {
        None => None,
        Some(DialogContext::CreatePullRequest { .. }) => Some(ConfirmationKind::CreatePullRequest),
        Some(DialogContext::OpenExistingPr { .. }) => Some(ConfirmationKind::OpenExistingPr),
        Some(DialogContext::ForkSession { .. }) => Some(ConfirmationKind::ForkSession),
        Some(DialogContext::ForkSessionPreflightInProgress { .. }) => Some(ConfirmationKind::ForkSessionPreflightInProgress),
        Some(DialogContext::SteerFallback { .. }) => Some(ConfirmationKind::SteerFallback),
        Some(DialogContext::RemoveProject { .. }) => Some(ConfirmationKind::RemoveProject),
        Some(DialogContext::RemoveProjectPreflightInProgress { .. }) => Some(ConfirmationKind::RemoveProjectPreflightInProgress),
        Some(DialogContext::SelectWorkspaceMode { .. }) => Some(ConfirmationKind::SelectWorkspaceMode),
        Some(DialogContext::Quit) => Some(ConfirmationKind::Quit),
    }
}

/// Reads the kind of a dialog's question.
pub fn context_kind(c: &Option<DialogContext>) -> (k: Option<ConfirmationKind>)
    ensures
        k == kind_of(*c),
{
    match c {
        None => None,
        Some(DialogContext::CreatePullRequest { .. }) => Some(ConfirmationKind::CreatePullRequest),
        Some(DialogContext::OpenExistingPr { .. }) => Some(ConfirmationKind::OpenExistingPr),
        Some(DialogContext::ForkSession { .. }) => Some(ConfirmationKind::ForkSession),
        Some(DialogContext::ForkSessionPreflightInProgress { .. }) => Some(ConfirmationKind::ForkSessionPreflightInProgress),
        Some(DialogContext::SteerFallback { .. }) => Some(ConfirmationKind::SteerFallback),
        Some(DialogContext::RemoveProject { .. }) => Some(ConfirmationKind::RemoveProject),
        Some(DialogContext::RemoveProjectPreflightInProgress { .. }) => Some(ConfirmationKind::RemoveProjectPreflightInProgress),
        Some(DialogContext::SelectWorkspaceMode { .. }) => Some(ConfirmationKind::SelectWorkspaceMode),
        Some(DialogContext::Quit) => Some(ConfirmationKind::Quit),
    }
}

/// The confirmation dialog.
pub struct ConfirmationDialog {
    pub visible: bool,
    /// A preflight is still running; the dialog shows a spinner.
    pub loading: bool,
    pub title: String,
    pub message: String,
    pub warnings: Vec<String>,
    pub confirmation: ConfirmationType,
    pub confirm_text: String,
    pub context: Option<DialogContext>,
}

impl ConfirmationDialog {
    /// A closed dialog.
    pub fn new() -> (d: Self)
        ensures
            !d.visible,
            !d.loading,
            d.context is None,
            d.warnings@.len() == 0,
    {
        ConfirmationDialog {
            visible: false,
            loading: false,
            title: String::new(),
            message: String::new(),
            warnings: Vec::new(),
            confirmation: ConfirmationType::Info,
            confirm_text: String::new(),
            context: None,
        }
    }

    /// Closes the dialog; it forgets what it asked about.
    pub fn close(&mut self)
        ensures
            *final(self) == (ConfirmationDialog { visible: false, loading: false, context: None, ..*old(self) }),
    {
        self.visible = false;
        self.loading = false;
        self.context = None;
    }

    /// Opens the dialog with a question.
    pub fn show(
        &mut self,
        title: String,
        message: String,
        warnings: Vec<String>,
        confirmation: ConfirmationType,
        confirm_text: String,
        context: Option<DialogContext>,
    )
        ensures
            *final(self) == (ConfirmationDialog { visible: true, loading: false, title, message, warnings, confirmation, confirm_text, context }),
    {
        self.visible = true;
        self.loading = false;
        self.title = title;
        self.message = message;
        self.warnings = warnings;
        self.confirmation = confirmation;
        self.confirm_text = confirm_text;
        self.context = context;
    }

    /// Opens the dialog while a preflight runs: no warnings yet.
    pub fn show_loading(&mut self, title: String, message: String, context: Option<DialogContext>)
        ensures
            final(self).visible,
            final(self).loading,
            final(self).title == title,
            final(self).message == message,
            final(self).warnings@.len() == 0,
            final(self).context == context,
            final(self).confirmation == old(self).confirmation,
            final(self).confirm_text == old(self).confirm_text,
    {
        self.visible = true;
        self.loading = true;
        self.title = title;
        self.message = message;
        self.warnings = Vec::new();
        self.context = context;
    }
}

/// The error dialog.
pub struct ErrorDialog {
    pub visible: bool,
    pub title: String,
    pub message: String,
    /// Technical details, shown on request.
    pub details: Option<String>,
}

/// A tool the user has to install.
#[derive(PartialEq, Eq, Structural, Clone, Copy, Debug)]
pub enum RequiredTool {
    Agent(Tool),
    GitHubCli,
}

/// The dialog that asks for a missing tool, with why it is needed.
pub struct MissingToolDialog {
    pub visible: bool,
    pub tool: Option<RequiredTool>,
    pub context: Option<String>,
}

/// The open model picker: the providers it offers and why it is open.
pub struct ModelPicker {
    pub providers: Vec<AgentType>,
    pub context: ModelPickerContext,
}

/// A fork waiting for its preflight and its confirmation: the parent
/// workspace and the seed's size against the context window.
#[derive(PartialEq, Eq, Structural, Clone, Copy, Debug)]
pub struct PendingFork {
    pub parent_workspace_id: u128,
    pub token_estimate: u64,
    pub context_window: u64,
}

/// An open tab: its session and the workspace it works in.
#[derive(PartialEq, Eq, Structural, Clone, Copy, Debug)]
pub struct Tab {
    pub session_id: u128,
    pub workspace_id: Option<u128>,
}

/// What the screen shows and where the keyboard goes.
pub struct Screen {
    pub mode: InputMode,
    pub confirmation: ConfirmationDialog,
    pub error: ErrorDialog,
    pub missing_tool: MissingToolDialog,
    /// Menus and pickers other than the model picker are open.
    pub overlays_open: bool,
    pub help_visible: bool,
    /// The command palette is open.
    pub palette_open: bool,
    pub model_picker: Option<ModelPicker>,
    pub footer: Option<TimedMessage>,
    pub command_buffer: String,
    pub sidebar_visible: bool,
    pub pending_fork: Option<PendingFork>,
    pub pending_handoff: bool,
    pub tabs: Vec<Tab>,
    pub active_tab: usize,
    /// How many tabs may be open at once.
    pub max_tabs: usize,
}

/// `a` with its overlays closed: menus, pickers, the palette and help.
pub open spec fn shut(a: Screen) -> Screen {
    Screen { overlays_open: false, help_visible: false, palette_open: false, model_picker: None, ..a }
}

/// `b` is `a` with its overlays closed.
pub open spec fn overlays_closed(a: Screen, b: Screen) -> bool {
    b == shut(a)
}

/// `b` is `a` with the footer showing `text` for `seconds`.
pub open spec fn footer_shown(a: Screen, b: Screen, text: Seq<char>, seconds: u64) -> bool {
    &&& b.footer matches Some(m) && m.text@ == text && m.seconds == seconds
    &&& b == (Screen { footer: b.footer, ..a })
}

impl Screen {
    /// The tabs stay within their limit, and one of them is active when
    /// there are any.
    pub open spec fn wf(&self) -> bool {
        &&& self.tabs@.len() <= self.max_tabs
        &&& self.tabs@.len() > 0 ==> self.active_tab < self.tabs@.len()
    }

    /// The screen at start-up: no dialog, no tab, the sidebar hidden; at
    /// most `max_tabs` tabs may open.
    pub fn new(mode: InputMode, max_tabs: usize) -> (s: Self)
        ensures
            s.wf(),
            s.max_tabs == max_tabs,
            s.mode == mode,
            !s.confirmation.visible && !s.confirmation.loading && s.confirmation.context is None,
            !s.error.visible,
            !s.missing_tool.visible,
            !s.overlays_open && !s.help_visible && !s.palette_open && s.model_picker is None,
            s.footer is None,
            s.command_buffer@.len() == 0,
            !s.sidebar_visible,
            s.pending_fork is None,
            !s.pending_handoff,
            s.tabs@.len() == 0,
            s.active_tab == 0,
    {
        Screen {
            mode,
            confirmation: ConfirmationDialog::new(),
            error: ErrorDialog { visible: false, title: String::new(), message: String::new(), details: None },
            missing_tool: MissingToolDialog { visible: false, tool: None, context: None },
            overlays_open: false,
            help_visible: false,
            palette_open: false,
            model_picker: None,
            footer: None,
            command_buffer: String::new(),
            sidebar_visible: false,
            pending_fork: None,
            pending_handoff: false,
            tabs: Vec::new(),
            active_tab: 0,
            max_tabs,
        }
    }

    /// Closes the menus, pickers and help.
    pub fn close_overlays(&mut self)
        ensures
            overlays_closed(*old(self), *final(self)),
    {
        self.overlays_open = false;
        self.help_visible = false;
        self.palette_open = false;
        self.model_picker = None;
    }

    /// Shows a footer message for some seconds.
    pub fn set_footer(&mut self, text: &str, seconds: u64)
        ensures
            footer_shown(*old(self), *final(self), text@, seconds),
    {
        self.footer = Some(TimedMessage { text: string_from_str(text), seconds });
    }
}


/// `b` is `a` with the error dialog showing `title`, `message` and
/// `details`: the overlays close and the keyboard goes to the dialog.
pub open spec fn error_shown(a: Screen, b: Screen, title: Seq<char>, message: Seq<char>, details: Option<Seq<char>>) -> bool {
    &&& b.error.visible
    &&& b.error.title@ == title
    &&& b.error.message@ == message
    &&& opt_chars(b.error.details) == details
    &&& b == (Screen { mode: InputMode::ShowingError, error: b.error, ..shut(a) })
}

/// `a` with its confirmation dialog closed.
pub open spec fn confirmation_closed(a: Screen) -> Screen {
    Screen { confirmation: ConfirmationDialog { visible: false, loading: false, context: None, ..a.confirmation }, ..a }
}

/// `b` is `a` with the confirmation dialog asking `title`, `message` and
/// `warnings` with the given severity, button and context.
pub open spec fn confirmation_shown(
    a: Screen,
    b: Screen,
    title: Seq<char>,
    message: Seq<char>,
    warnings: Seq<Seq<char>>,
    severity: ConfirmationType,
    button: Seq<char>,
) -> bool {
    &&& b.confirmation.visible
    &&& !b.confirmation.loading
    &&& b.confirmation.title@ == title
    &&& b.confirmation.message@ == message
    &&& views(b.confirmation.warnings@) == warnings
    &&& b.confirmation.confirmation == severity
    &&& b.confirmation.confirm_text@ == button
    &&& b == (Screen { confirmation: b.confirmation, ..a })
}

/// The removal preflight of project `repo_id` is what the dialog waits for.
pub open spec fn removal_preflight_active(c: ConfirmationDialog, repo_id: u128) -> bool {
    c.loading && (c.context matches Some(DialogContext::RemoveProjectPreflightInProgress { repo_id: id }) && id == repo_id)
}

/// The fork preflight of workspace `parent` is what the dialog waits for.
pub open spec fn fork_preflight_active(c: ConfirmationDialog, parent: u128) -> bool {
    c.loading && (c.context matches Some(DialogContext::ForkSessionPreflightInProgress { parent_workspace_id: id })
        && id == parent)
}

/// The dialog shows a preflight that must finish before any answer.
pub open spec fn blocking_loading(c: ConfirmationDialog) -> bool {
    c.visible && c.loading && (c.context matches Some(DialogContext::RemoveProjectPreflightInProgress { .. })
        || c.context matches Some(DialogContext::ForkSessionPreflightInProgress { .. }))
}

/// What the project-removal preflight found.
pub struct RemovalSummary {
    pub repo_name: String,
    pub warnings: Vec<String>,
    pub has_dirty: bool,
    pub has_unmerged: bool,
    pub workspace_count: usize,
}

/// What the fork preflight found: the branch the fork starts from and a
/// warning about uncommitted changes.
pub struct ForkPreflight {
    pub base_branch: String,
    pub dirty_warning: Option<String>,
}

/// The error dialog of a project removal that reported failures: the
/// failures, one per line, are its details.
pub open spec fn removal_errors_shown(a: Screen, b: Screen, errors: Seq<Seq<char>>) -> bool {
    error_shown(
        a,
        b,
        "Project Removal Errors"@,
        "Some operations failed during project removal"@,
        Some(join_with(errors, "\n"@)),
    )
}

impl Screen {
    /// Shows an error: the overlays close and the keyboard goes to the dialog.
    pub fn show_error(&mut self, title: &str, message: &str)
        ensures
            error_shown(*old(self), *final(self), title@, message@, None),
    {
        self.close_overlays();
        self.error = ErrorDialog { visible: true, title: string_from_str(title), message: string_from_str(message), details: None };
        self.mode = InputMode::ShowingError;
    }

    /// Shows an error with technical details.
    pub fn show_error_with_details(&mut self, title: &str, message: &str, details: &str)
        ensures
            error_shown(*old(self), *final(self), title@, message@, Some(details@)),
    {
        self.close_overlays();
        self.error = ErrorDialog {
            visible: true,
            title: string_from_str(title),
            message: string_from_str(message),
            details: Some(string_from_str(details)),
        };
        self.mode = InputMode::ShowingError;
    }

    /// Opens the confirmation dialog on a preflight that must finish first.
    pub fn show_blocking_loading(&mut self, title: String, message: String, context: DialogContext)
        ensures
            final(self).confirmation.visible,
            final(self).confirmation.loading,
            final(self).confirmation.title == title,
            final(self).confirmation.message == message,
            final(self).confirmation.context == Some(context),
            final(self).confirmation.warnings@.len() == 0,
            *final(self) == (Screen { mode: InputMode::Confirming, confirmation: final(self).confirmation, ..shut(*old(self)) }),
    {
        self.close_overlays();
        self.confirmation.show_loading(title, message, Some(context));
        self.mode = InputMode::Confirming;
    }

    /// Whether the dialog waits for the removal preflight of `repo_id`; a
    /// result for another project, or one that comes after the dialog
    /// closed, is dropped.
    pub fn removal_preflight_running(&self, repo_id: u128) -> (b: bool)
        ensures
            b == removal_preflight_active(self.confirmation, repo_id),
    {
        self.confirmation.loading && match &self.confirmation.context {
            Some(DialogContext::RemoveProjectPreflightInProgress { repo_id: id }) => *id == repo_id,
            _ => false,
        }
    }

    /// Whether the dialog waits for the fork preflight of `parent`.
    pub fn fork_preflight_running(&self, parent: u128) -> (b: bool)
        ensures
            b == fork_preflight_active(self.confirmation, parent),
    {
        self.confirmation.loading && match &self.confirmation.context {
            Some(DialogContext::ForkSessionPreflightInProgress { parent_workspace_id: id }) => *id == parent,
            _ => false,
        }
    }

    /// Whether the dialog shows a preflight that blocks every answer.
    pub fn is_blocking_loading(&self) -> (b: bool)
        ensures
            b == blocking_loading(self.confirmation),
    {
        self.confirmation.visible && self.confirmation.loading && match &self.confirmation.context {
            Some(DialogContext::RemoveProjectPreflightInProgress { .. }) => true,
            Some(DialogContext::ForkSessionPreflightInProgress { .. }) => true,
            _ => false,
        }
    }

    /// The removal preflight finished. A result the dialog no longer waits
    /// for changes nothing. Otherwise the dialog asks to remove the project,
    /// with the preflight's warnings, and the answer acts on `repo_id`; a
    /// failed preflight closes the dialog and shows the error.
    pub fn on_removal_preflight(&mut self, repo_id: u128, result: Result<RemovalSummary, String>)
        ensures
            !removal_preflight_active(old(self).confirmation, repo_id) ==> *final(self) == *old(self),
            removal_preflight_active(old(self).confirmation, repo_id) ==> match result {
                Ok(s) => {
                    &&& confirmation_shown(
                        (Screen { mode: InputMode::Confirming, ..*old(self) }),
                        *final(self),
                        "Remove \""@ + s.repo_name@ + "\"?"@,
                        "This will archive all workspaces and remove the project."@,
                        views(s.warnings@),
                        removal_severity(s.has_dirty, s.has_unmerged, s.workspace_count),
                        "Remove"@,
                    )
                    &&& final(self).confirmation.context == Some(DialogContext::RemoveProject { repo_id })
                },
                Err(e) => error_shown(confirmation_closed(*old(self)), *final(self), "Project Removal Failed"@, e@, None),
            },
    {
        if !self.removal_preflight_running(repo_id) {
            return;
        }
        match result {
            Ok(s) => {
                let severity = removal_confirmation_type(s.has_dirty, s.has_unmerged, s.workspace_count);
                let title = remove_project_title(s.repo_name.as_str());
                self.confirmation.show(
                    title,
                    string_from_str("This will archive all workspaces and remove the project."),
                    s.warnings,
                    severity,
                    string_from_str("Remove"),
                    Some(DialogContext::RemoveProject { repo_id }),
                );
                self.mode = InputMode::Confirming;
            },
            Err(e) => {
                self.confirmation.close();
                self.show_error("Project Removal Failed", e.as_str());
            },
        }
    }

    /// The fork preflight finished. A result the dialog no longer waits for
    /// changes nothing, and so does one for another parent than the pending
    /// fork's; without a pending fork the dialog closes. Otherwise the
    /// dialog asks to fork from the preflight's base branch, and the answer
    /// acts on that branch of `parent`. `exceeds` and `high` tell whether
    /// the pending seed takes at least all, or at least 80 percent, of its
    /// context window, and `pct` is that share as a whole percentage. A
    /// failed preflight drops the pending fork and shows the error.
    pub fn on_fork_preflight(&mut self, parent: u128, result: Result<ForkPreflight, String>, exceeds: bool, high: bool, pct: &str)
        ensures
            !fork_preflight_active(old(self).confirmation, parent) ==> *final(self) == *old(self),
            fork_preflight_active(old(self).confirmation, parent) ==> match result {
                Ok(f) => match old(self).pending_fork {
                    None => *final(self) == (Screen { mode: InputMode::Normal, ..confirmation_closed(*old(self)) }),
                    Some(p) => if p.parent_workspace_id != parent {
                        *final(self) == *old(self)
                    } else {
                        &&& confirmation_shown(
                            (Screen { mode: InputMode::Confirming, ..*old(self) }),
                            *final(self),
                            "Fork session?"@,
                            fork_message_text(f.base_branch@, p.token_estimate, p.context_window, pct@),
                            fork_warnings(opt_chars(f.dirty_warning), exceeds, high, p.token_estimate, p.context_window, pct@),
                            fork_confirmation(f.dirty_warning is Some, exceeds, high),
                            "Fork"@,
                        )
                        &&& final(self).confirmation.context == Some(DialogContext::ForkSession { parent_workspace_id: parent, base_branch: f.base_branch })
                    },
                },
                Err(e) => error_shown(
                    (Screen { pending_fork: None, ..confirmation_closed(*old(self)) }),
                    *final(self),
                    "Fork Failed"@,
                    e@,
                    None,
                ),
            },
    {
        if !self.fork_preflight_running(parent) {
            return;
        }
        match result {
            Ok(f) => {
                match self.pending_fork {
                    None => {
                        self.confirmation.close();
                        self.mode = InputMode::Normal;
                    },
                    Some(p) => {
                        if p.parent_workspace_id == parent {
                            let d = fork_dialog(f.base_branch.as_str(), f.dirty_warning, exceeds, high, p.token_estimate, p.context_window, pct);
                            self.confirmation.show(
                                string_from_str("Fork session?"),
                                d.message,
                                d.warnings,
                                d.confirmation,
                                string_from_str("Fork"),
                                Some(DialogContext::ForkSession { parent_workspace_id: parent, base_branch: f.base_branch }),
                            );
                            self.mode = InputMode::Confirming;
                        }
                    },
                }
            },
            Err(e) => {
                self.pending_fork = None;
                self.confirmation.close();
                self.show_error("Fork Failed", e.as_str());
            },
        }
    }

    /// A project was removed. Failures show the error dialog, which keeps
    /// the keyboard; the returned sidebar state says where the selection
    /// goes, and without failures the keyboard goes where it says.
    /// `selection` is the row selected before, `visible_count` the rows
    /// shown after the refresh.
    pub fn on_project_removed(&mut self, errors: &Vec<String>, selection: usize, visible_count: usize) -> (r: AfterRemoval)
        ensures
            r == after_removal(selection, visible_count, errors.len() > 0),
            errors.len() > 0 ==> removal_errors_shown(*old(self), *final(self), views(errors@)),
            errors.len() == 0 ==> *final(self) == (Screen { mode: r.mode.unwrap(), ..*old(self) }),
    {
        let has_errors = errors.len() > 0;
        if has_errors {
            let details = join_texts(errors, "\n");
            self.show_error_with_details("Project Removal Errors", "Some operations failed during project removal", details.as_str());
        }
        let r = project_removed(selection, visible_count, has_errors);
        match r.mode {
            Some(m) => {
                self.mode = m;
            },
            None => {},
        }
        r
    }
}


/// `a` after its confirmation dialog is dismissed: the dialog closes, a
/// pending fork is dropped with a fork question, and the keyboard goes
/// where the question came from.
pub open spec fn dismissed(a: Screen) -> Screen {
    let (mode, drop_fork) = dismissal(kind_of(a.confirmation.context), a.tabs@.len() > 0);
    Screen { mode, pending_fork: if drop_fork { None } else { a.pending_fork }, ..confirmation_closed(a) }
}

/// The workspaces of the tabs, in tab order.
pub open spec fn tab_workspaces(tabs: Seq<Tab>) -> Seq<Option<u128>> {
    tabs.map_values(|t: Tab| t.workspace_id)
}

proof fn lemma_first_tab_in_range(ws: Seq<Option<u128>>, id: u128)
    ensures
        first_tab_of(ws, id) matches Some(i) ==> i < ws.len(),
    decreases ws.len(),
{
    if ws.len() > 0 && ws[0] != Some(id) {
        lemma_first_tab_in_range(ws.drop_first(), id);
    }
}

/// `a` after opening workspace `id` again: the first tab on it becomes
/// active, and with `close_sidebar` the sidebar hides and the keyboard
/// returns to the chat; without such a tab, `a` itself.
pub open spec fn reopened(a: Screen, id: u128, close_sidebar: bool) -> Screen {
    match first_tab_of(tab_workspaces(a.tabs@), id) {
        Some(i) => if close_sidebar {
            Screen { active_tab: i as usize, sidebar_visible: false, mode: InputMode::Normal, ..a }
        } else {
            Screen { active_tab: i as usize, ..a }
        },
        None => a,
    }
}

/// Opening a workspace that a tab already shows adds no tab, and opening it
/// again changes nothing more.
pub proof fn lemma_reopen_idempotent(a: Screen, id: u128, close_sidebar: bool)
    ensures
        reopened(a, id, close_sidebar).tabs == a.tabs,
        reopened(reopened(a, id, close_sidebar), id, close_sidebar) == reopened(a, id, close_sidebar),
{
}

/// `a` after the typed command is taken: the command line is empty and the
/// keyboard returns to the chat.
pub open spec fn command_taken(a: Screen, buffer: String) -> Screen {
    Screen { command_buffer: buffer, mode: InputMode::Normal, ..a }
}

/// The typed command opens a path below the home directory.
pub open spec fn needs_home(k: CommandKind) -> bool {
    k matches CommandKind::OpenPath(_, h) && h is Some
}

impl Screen {
    /// Dismisses the confirmation dialog.
    pub fn dismiss_confirmation(&mut self)
        ensures
            *final(self) == dismissed(*old(self)),
    {
        let kind = context_kind(&self.confirmation.context);
        let (mode, drop_fork) = dismiss_confirmation(kind, self.tabs.len() > 0);
        if drop_fork {
            self.pending_fork = None;
        }
        self.confirmation.close();
        self.mode = mode;
    }

    /// A click while the confirmation dialog has the keyboard dismisses it,
    /// except while a blocking preflight runs, when the click changes
    /// nothing. Returns whether the dialog took the click.
    pub fn click_while_confirming(&mut self) -> (taken: bool)
        ensures
            taken == (old(self).mode == InputMode::Confirming && old(self).confirmation.visible),
            !taken || blocking_loading(old(self).confirmation) ==> *final(self) == *old(self),
            taken && !blocking_loading(old(self).confirmation) ==> *final(self) == dismissed(*old(self)),
    {
        if self.mode == InputMode::Confirming && self.confirmation.visible {
            if self.is_blocking_loading() {
                return true;
            }
            self.dismiss_confirmation();
            true
        } else {
            false
        }
    }

    /// Shows what the pull-request preflight led to. A missing GitHub CLI
    /// asks for it; a missing login, and the main branch, show an error; in
    /// these cases the dialog waiting for the preflight closes. An existing
    /// pull request is offered for opening, and otherwise creating one from
    /// tab `tab_index` in `working_dir` is confirmed.
    pub fn apply_pr_outcome(&mut self, outcome: PrPreflightOutcome, tab_index: usize, working_dir: String)
        ensures
            outcome is MissingGh ==> {
                &&& final(self).missing_tool.visible
                &&& final(self).missing_tool.tool == Some(RequiredTool::GitHubCli)
                &&& opt_chars(final(self).missing_tool.context) == Some("GitHub CLI (gh) is required for PR operations."@)
                &&& *final(self) == (Screen {
                    mode: InputMode::MissingTool,
                    missing_tool: final(self).missing_tool,
                    ..shut(confirmation_closed(*old(self)))
                })
            },
            outcome is NotAuthenticated ==> error_shown(
                confirmation_closed(*old(self)),
                *final(self),
                "Not Authenticated"@,
                "GitHub CLI is not authenticated."@,
                Some("Run: gh auth login"@),
            ),
            outcome matches PrPreflightOutcome::OnMainBranch { message } ==> error_shown(
                confirmation_closed(*old(self)),
                *final(self),
                "Cannot Create PR"@,
                message@,
                None,
            ),
            outcome matches PrPreflightOutcome::ExistingPr { message, url, .. } ==> {
                &&& confirmation_shown(
                    shut(*old(self)),
                    *final(self),
                    "Pull Request Exists"@,
                    message@,
                    Seq::empty(),
                    ConfirmationType::Info,
                    "Open PR"@,
                )
                &&& final(self).confirmation.context == Some(DialogContext::OpenExistingPr { working_dir, pr_url: url })
            },
            outcome matches PrPreflightOutcome::ConfirmCreate { message, warnings, .. } ==> {
                &&& confirmation_shown(
                    shut(*old(self)),
                    *final(self),
                    "Create Pull Request"@,
                    message@,
                    views(warnings@),
                    ConfirmationType::Info,
                    "Create PR"@,
                )
                &&& final(self).confirmation.context == Some(DialogContext::CreatePullRequest { tab_index, working_dir })
            },
    {
        match outcome {
            PrPreflightOutcome::MissingGh => {
                self.confirmation.close();
                self.close_overlays();
                self.missing_tool = MissingToolDialog {
                    visible: true,
                    tool: Some(RequiredTool::GitHubCli),
                    context: Some(string_from_str("GitHub CLI (gh) is required for PR operations.")),
                };
                self.mode = InputMode::MissingTool;
            },
            PrPreflightOutcome::NotAuthenticated => {
                self.confirmation.close();
                self.show_error_with_details("Not Authenticated", "GitHub CLI is not authenticated.", "Run: gh auth login");
            },
            PrPreflightOutcome::OnMainBranch { message } => {
                self.confirmation.close();
                self.show_error("Cannot Create PR", message.as_str());
            },
            PrPreflightOutcome::ExistingPr { message, url, .. } => {
                self.close_overlays();
                let warnings: Vec<String> = Vec::new();
                assert(views(warnings@) =~= Seq::<Seq<char>>::empty());
                self.confirmation.show(
                    string_from_str("Pull Request Exists"),
                    message,
                    warnings,
                    ConfirmationType::Info,
                    string_from_str("Open PR"),
                    Some(DialogContext::OpenExistingPr { working_dir, pr_url: url }),
                );
            },
            PrPreflightOutcome::ConfirmCreate { message, warnings, .. } => {
                self.close_overlays();
                self.confirmation.show(
                    string_from_str("Create Pull Request"),
                    message,
                    warnings,
                    ConfirmationType::Info,
                    string_from_str("Create PR"),
                    Some(DialogContext::CreatePullRequest { tab_index, working_dir }),
                );
            },
        }
    }

    /// A click on the model in the status bar. While the session is busy
    /// the footer asks to wait; with no provider to offer it points to the
    /// provider settings; otherwise the model picker opens on the session's
    /// providers. `enabled` are the enabled providers, `current` the
    /// session's own, and `current_installed` whether its tool is there.
    pub fn click_model_area(&mut self, busy: bool, enabled: Vec<AgentType>, current: AgentType, current_installed: bool) -> (opened: bool)
        ensures
            opened == (!busy && picker_providers(enabled@, current, current_installed).len() > 0),
            busy ==> footer_shown(*old(self), *final(self), "Finish the current response before switching models"@, 3),
            !busy && picker_providers(enabled@, current, current_installed).len() == 0 ==> footer_shown(
                *old(self),
                *final(self),
                "No enabled providers available. Use /providers."@,
                4,
            ),
            opened ==> {
                &&& final(self).model_picker matches Some(p) && p.providers@ == picker_providers(enabled@, current, current_installed)
                    && p.context == ModelPickerContext::SessionSelection
                &&& *final(self) == (Screen { mode: InputMode::SelectingModel, model_picker: final(self).model_picker, ..shut(*old(self)) })
            },
    {
        if busy {
            self.set_footer("Finish the current response before switching models", 3);
            return false;
        }
        let providers = model_picker_providers(enabled, current, current_installed);
        if providers.len() == 0 {
            self.set_footer("No enabled providers available. Use /providers.", 4);
            return false;
        }
        self.close_overlays();
        self.model_picker = Some(ModelPicker { providers, context: ModelPickerContext::SessionSelection });
        self.mode = InputMode::SelectingModel;
        true
    }

    /// Runs the command typed in command mode: the command line empties and
    /// the keyboard returns to the chat. `:open` without a path shows its
    /// usage; a path below the home directory cannot open when the home
    /// directory is unknown (`home_known`); help shows the key bindings.
    /// Returns what the command asks for.
    pub fn run_command(&mut self, home_known: bool) -> (o: CommandOutcome)
        ensures
            outcome_kind(o) == command_outcome_kind(old(self).command_buffer@),
            final(self).command_buffer@.len() == 0,
            command_outcome_kind(old(self).command_buffer@) is OpenUsage ==> footer_shown(
                command_taken(*old(self), final(self).command_buffer),
                *final(self),
                "Usage: :open <path>"@,
                3,
            ),
            needs_home(command_outcome_kind(old(self).command_buffer@)) && !home_known ==> footer_shown(
                command_taken(*old(self), final(self).command_buffer),
                *final(self),
                "Home directory not found; cannot expand ~"@,
                3,
            ),
            command_outcome_kind(old(self).command_buffer@) is ShowHelp ==> *final(self) == (Screen {
                mode: InputMode::ShowingHelp,
                help_visible: true,
                ..shut(command_taken(*old(self), final(self).command_buffer))
            }),
            !(command_outcome_kind(old(self).command_buffer@) is OpenUsage) && !(command_outcome_kind(old(self).command_buffer@) is ShowHelp)
                && !(needs_home(command_outcome_kind(old(self).command_buffer@)) && !home_known)
                ==> *final(self) == command_taken(*old(self), final(self).command_buffer),
    {
        let mut buffer = String::new();
        std::mem::swap(&mut buffer, &mut self.command_buffer);
        self.mode = InputMode::Normal;
        let o = parse_command(buffer.as_str());
        match &o {
            CommandOutcome::OpenUsage => {
                self.set_footer("Usage: :open <path>", 3);
            },
            CommandOutcome::OpenPath { home_relative, .. } => {
                if home_relative.is_some() && !home_known {
                    self.set_footer("Home directory not found; cannot expand ~", 3);
                }
            },
            CommandOutcome::ShowHelp => {
                self.close_overlays();
                self.help_visible = true;
                self.mode = InputMode::ShowingHelp;
            },
            _ => {},
        }
        o
    }

    /// Opening a workspace that a tab already shows switches to the first
    /// such tab and adds none; with `close_sidebar` the sidebar hides and
    /// the keyboard returns to the chat. Returns whether such a tab exists;
    /// when none does, nothing changes.
    pub fn reopen_workspace(&mut self, workspace_id: u128, close_sidebar: bool) -> (found: bool)
        requires
            old(self).wf(),
        ensures
            final(self).wf(),
            found == (first_tab_of(tab_workspaces(old(self).tabs@), workspace_id) is Some),
            *final(self) == reopened(*old(self), workspace_id, close_sidebar),
    {
        let mut ws: Vec<Option<u128>> = Vec::new();
        let mut i: usize = 0;
        while i < self.tabs.len()
            invariant
                i <= self.tabs.len(),
                ws@ == tab_workspaces(self.tabs@.take(i as int)),
            decreases self.tabs.len() - i,
        {
            ws.push(self.tabs[i].workspace_id);
            i = i + 1;
            assert(ws@ =~= tab_workspaces(self.tabs@.take(i as int)));
        }
        assert(self.tabs@.take(self.tabs.len() as int) =~= self.tabs@);
        match find_tab_for_workspace(&ws, workspace_id) {
            Some(k) => {
                proof {
                    lemma_first_tab_in_range(ws@, workspace_id);
                }
                self.active_tab = k;
                if close_sidebar {
                    self.sidebar_visible = false;
                    self.mode = InputMode::Normal;
                }
                true
            },
            None => false,
        }
    }

    /// The tab of a session, found by the session's id (tabs move when
    /// others close, so events are routed by id): the first tab on it.
    pub fn tab_of_session(&self, session_id: u128) -> (r: Option<usize>)
        ensures
            r matches Some(i) ==> i < self.tabs@.len() && self.tabs@[i as int].session_id == session_id
                && forall|j: int| 0 <= j < i ==> (#[trigger] self.tabs@[j]).session_id != session_id,
            r is None ==> forall|j: int| 0 <= j < self.tabs@.len() ==> (#[trigger] self.tabs@[j]).session_id != session_id,
    {
        let mut i: usize = 0;
        while i < self.tabs.len()
            invariant
                i <= self.tabs.len(),
                forall|j: int| 0 <= j < i ==> (#[trigger] self.tabs@[j]).session_id != session_id,
            decreases self.tabs.len() - i,
        {
            if self.tabs[i].session_id == session_id {
                return Some(i);
            }
            i = i + 1;
        }
        None
    }

    /// Opens a new tab on session `session_id` in workspace
    /// `workspace_id` and makes it active. At the tab limit nothing opens
    /// and the error dialog says so.
    pub fn open_tab(&mut self, session_id: u128, workspace_id: Option<u128>) -> (opened: bool)
        requires
            old(self).wf(),
        ensures
            final(self).wf(),
            opened == (old(self).tabs@.len() < old(self).max_tabs),
            opened ==> {
                &&& final(self).tabs@ == old(self).tabs@.push(Tab { session_id, workspace_id })
                &&& final(self).active_tab == old(self).tabs@.len()
                &&& *final(self) == (Screen { tabs: final(self).tabs, active_tab: final(self).active_tab, ..*old(self) })
            },
            !opened ==> error_shown(
                *old(self),
                *final(self),
                "Too many tabs"@,
                "Maximum number of tabs reached. Close a tab before opening another workspace."@,
                None,
            ),
    {
        if self.tabs.len() >= self.max_tabs {
            self.show_error("Too many tabs", "Maximum number of tabs reached. Close a tab before opening another workspace.");
            return false;
        }
        let index = self.tabs.len();
        self.tabs.push(Tab { session_id, workspace_id });
        self.active_tab = index;
        true
    }

    /// Hands the session over: a new tab on the session `session_id` in
    /// the source's workspace becomes active, the handoff is no longer
    /// pending, the picker closes, the keyboard returns to the chat, and the
    /// chosen agent starts on the handoff prompt.
    pub fn open_handoff_tab(&mut self, session_id: u128, workspace_id: Option<u128>, agent: AgentType, prompt: String) -> (e: Effect)
        requires
            old(self).wf(),
            old(self).tabs@.len() < old(self).max_tabs,
        ensures
            final(self).wf(),
            final(self).tabs@ == old(self).tabs@.push(Tab { session_id, workspace_id }),
            final(self).active_tab == old(self).tabs@.len(),
            *final(self) == (Screen {
                tabs: final(self).tabs,
                active_tab: final(self).active_tab,
                pending_handoff: false,
                model_picker: None,
                mode: InputMode::Normal,
                ..*old(self)
            }),
            effect_view(e) == EffectView::StartAgent(session_id, agent, prompt@, None),
    {
        let index = self.tabs.len();
        self.tabs.push(Tab { session_id, workspace_id });
        self.active_tab = index;
        self.pending_handoff = false;
        self.model_picker = None;
        self.mode = InputMode::Normal;
        Effect::StartAgent { session_id, agent, prompt, resume_session_id: None }
    }
}

/// The provider a handoff goes to: the chosen one, with the chosen model,
/// when it is enabled; otherwise the preferred enabled provider other than
/// the source, with its default model (`false`).
pub open spec fn handoff_target(chosen: AgentType, enabled: Seq<AgentType>, default: AgentType, order: Seq<AgentType>, source: AgentType) -> (AgentType, bool) {
    if enabled.contains(chosen) {
        (chosen, true)
    } else {
        (handoff_provider(enabled, default, order, source), false)
    }
}

/// Decides where a handoff goes and whether the chosen model is kept.
pub fn choose_handoff_target(chosen: AgentType, enabled: &Vec<AgentType>, default: AgentType, order: &Vec<AgentType>, source: AgentType) -> (r: (AgentType, bool))
    ensures
        r == handoff_target(chosen, enabled@, default, order@, source),
{
    if contains_agent(enabled, chosen) {
        (chosen, true)
    } else {
        (preferred_provider_for_handoff(enabled, default, order, source), false)
    }
}

// ---------------------------------------------------------------------------
// Running actions
// ---------------------------------------------------------------------------

/// The actions whose handling depends on where they come from.
#[derive(PartialEq, Eq, Structural, Clone, Copy, Debug)]
pub enum ActionKind {
    Confirm,
    OpenCommandPalette,
    ExecuteCommand,
    Other,
}

/// What running an action does first.
#[derive(PartialEq, Eq, Structural, Clone, Copy, Debug)]
pub enum ActionStep {
    /// Another handler takes the action.
    Dispatch,
    /// Nothing happens.
    Ignore,
    /// The palette closes, the keyboard returns to the chat, and the chosen
    /// action runs once when `run` says so.
    RunFromPalette { run: bool },
    /// The typed command runs (see `Screen::run_command`); the action it
    /// names runs after it unless it is the command execution itself.
    RunCommand,
}

/// Confirming in the command palette closes it and runs the chosen entry,
/// unless that would confirm or open the palette again; with no entry
/// chosen nothing happens. A visible model or provider picker takes a
/// confirmation first. Executing a command needs command mode.
pub open spec fn action_step_spec(action: ActionKind, mode: InputMode, picker_visible: bool, chosen: Option<ActionKind>) -> ActionStep {
    match action {
        ActionKind::Confirm => if picker_visible || mode != InputMode::CommandPalette {
            ActionStep::Dispatch
        } else {
            match chosen {
                None => ActionStep::Ignore,
                Some(a) => ActionStep::RunFromPalette { run: a != ActionKind::Confirm && a != ActionKind::OpenCommandPalette },
            }
        },
        ActionKind::ExecuteCommand => if mode == InputMode::Command {
            ActionStep::RunCommand
        } else {
            ActionStep::Ignore
        },
        _ => ActionStep::Dispatch,
    }
}

/// Decides what running an action does first; `chosen` is the palette's
/// selected entry.
pub fn action_step(action: ActionKind, mode: InputMode, picker_visible: bool, chosen: Option<ActionKind>) -> (r: ActionStep)
    ensures
        r == action_step_spec(action, mode, picker_visible, chosen),
{
    match action {
        ActionKind::Confirm => if picker_visible || mode != InputMode::CommandPalette {
            ActionStep::Dispatch
        } else {
            match chosen {
                None => ActionStep::Ignore,
                Some(a) => ActionStep::RunFromPalette { run: a != ActionKind::Confirm && a != ActionKind::OpenCommandPalette },
            }
        },
        ActionKind::ExecuteCommand => if mode == InputMode::Command {
            ActionStep::RunCommand
        } else {
            ActionStep::Ignore
        },
        _ => ActionStep::Dispatch,
    }
}

/// After a typed command, the action it names runs unless it is the
/// command execution itself.
pub fn runs_after_command(named: Option<ActionKind>) -> (b: bool)
    ensures
        b == (named matches Some(a) && a != ActionKind::ExecuteCommand),
{
    match named {
        Some(a) => a != ActionKind::ExecuteCommand,
        None => false,
    }
}


impl Screen {
    /// Runs the first step of an action. Confirming an entry of the
    /// command palette closes the palette and returns the keyboard to the
    /// chat before the entry's action runs (`run`); every other step leaves
    /// the screen as it is here (a typed command is taken by `run_command`).
    /// `picker_visible` tells whether a model or provider picker shows, and
    /// `chosen` is the palette's selected entry.
    pub fn step_action(&mut self, action: ActionKind, picker_visible: bool, chosen: Option<ActionKind>) -> (r: ActionStep)
        ensures
            r == action_step_spec(action, old(self).mode, picker_visible, chosen),
            r is RunFromPalette ==> *final(self) == (Screen { palette_open: false, mode: InputMode::Normal, ..*old(self) }),
            !(r is RunFromPalette) ==> *final(self) == *old(self),
    {
        let r = action_step(action, self.mode, picker_visible, chosen);
        if let ActionStep::RunFromPalette { .. } = r {
            self.palette_open = false;
            self.mode = InputMode::Normal;
        }
        r
    }
}


/// The sessions of the tabs, in tab order.
pub open spec fn tab_sessions(tabs: Seq<Tab>) -> Seq<Option<u128>> {
    tabs.map_values(|t: Tab| Some(t.session_id))
}

/// Routes an agent event to the bookkeeping of its session's tab, found by
/// the session's id (`turns` holds one entry per tab, in tab order): the
/// first tab on the session takes the event, as the active tab when it is
/// the active one, and no other entry changes. An event for a session that
/// no tab holds changes nothing.
pub fn route_agent_event(screen: &Screen, turns: &mut Vec<TurnState>, session_id: u128, e: AgentEventKind) -> (fx: Option<TurnEffects>)
    requires
        old(turns)@.len() == screen.tabs@.len(),
    ensures
        match first_tab_of(tab_sessions(screen.tabs@), session_id) {
            None => fx is None && final(turns)@ == old(turns)@,
            Some(i) => {
                &&& i < old(turns)@.len()
                &&& fx matches Some(f) && (final(turns)@[i as int].view(), effects_view(f)) == turn_step(
                    old(turns)@[i as int].view(),
                    e,
                    i == screen.active_tab,
                )
                &&& final(turns)@ == old(turns)@.update(i as int, final(turns)@[i as int])
            },
        },
{
    let mut ids: Vec<Option<u128>> = Vec::new();
    let mut k: usize = 0;
    while k < screen.tabs.len()
        invariant
            k <= screen.tabs.len(),
            ids@ == tab_sessions(screen.tabs@.take(k as int)),
        decreases screen.tabs.len() - k,
    {
        ids.push(Some(screen.tabs[k].session_id));
        k = k + 1;
        assert(ids@ =~= tab_sessions(screen.tabs@.take(k as int)));
    }
    assert(screen.tabs@.take(screen.tabs.len() as int) =~= screen.tabs@);
    match find_tab_for_workspace(&ids, session_id) {
        None => None,
        Some(i) => {
            proof {
                lemma_first_tab_in_range(ids@, session_id);
            }
            let ghost before = turns@;
            let mut t = turns.remove(i);
            let fx = apply_agent_event(&mut t, e, i == screen.active_tab);
            turns.insert(i, t);
            assert(turns@ =~= before.update(i as int, turns@[i as int]));
            Some(fx)
        },
    }
}

} // verus!
