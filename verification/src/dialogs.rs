//! Where the keyboard goes when dialogs close or tabs change, and when the
//! footer spinner runs.
use vstd::prelude::*;
use crate::command::InputMode;
use crate::text::{push_str, string_from_str};

verus! {

/// What a confirmation dialog was asking about.
#[derive(PartialEq, Eq, Structural, Clone, Copy, Debug)]
pub enum ConfirmationKind {
    CreatePullRequest,
    OpenExistingPr,
    ForkSession,
    ForkSessionPreflightInProgress,
    SteerFallback,
    RemoveProject,
    RemoveProjectPreflightInProgress,
    SelectWorkspaceMode,
    Quit,
}

/// The mode after a confirmation dialog is dismissed, and whether a pending
/// fork is dropped: dialogs opened from the chat return to it, project
/// dialogs return to the sidebar, and a dialog without context returns to
/// the chat when tabs are open and to the sidebar otherwise.
pub open spec fn dismissal(kind: Option<ConfirmationKind>, has_tabs: bool) -> (InputMode, bool) {
    match kind {
        Some(ConfirmationKind::ForkSession) | Some(ConfirmationKind::ForkSessionPreflightInProgress) => (InputMode::Normal, true),
        Some(ConfirmationKind::CreatePullRequest) | Some(ConfirmationKind::OpenExistingPr)
        | Some(ConfirmationKind::SteerFallback) | Some(ConfirmationKind::Quit) => (InputMode::Normal, false),
        Some(ConfirmationKind::RemoveProject) | Some(ConfirmationKind::RemoveProjectPreflightInProgress)
        | Some(ConfirmationKind::SelectWorkspaceMode) => (InputMode::SidebarNavigation, false),
        None => (if has_tabs { InputMode::Normal } else { InputMode::SidebarNavigation }, false),
    }
}

/// Decides where a dismissed confirmation dialog leaves the keyboard.
pub fn dismiss_confirmation(kind: Option<ConfirmationKind>, has_tabs: bool) -> (r: (InputMode, bool))
    ensures
        r == dismissal(kind, has_tabs),
{
    match kind {
        Some(ConfirmationKind::ForkSession) | Some(ConfirmationKind::ForkSessionPreflightInProgress) => (InputMode::Normal, true),
        Some(ConfirmationKind::CreatePullRequest) | Some(ConfirmationKind::OpenExistingPr)
        | Some(ConfirmationKind::SteerFallback) | Some(ConfirmationKind::Quit) => (InputMode::Normal, false),
        Some(ConfirmationKind::RemoveProject) | Some(ConfirmationKind::RemoveProjectPreflightInProgress)
        | Some(ConfirmationKind::SelectWorkspaceMode) => (InputMode::SidebarNavigation, false),
        None => (if has_tabs { InputMode::Normal } else { InputMode::SidebarNavigation }, false),
    }
}

/// The user's answer in a confirmation dialog.
#[derive(PartialEq, Eq, Structural, Clone, Copy, Debug)]
pub enum ConfirmAnswer {
    Yes,
    No,
    Toggle,
}

/// The workspace mode a project takes when the user answers the mode
/// question: yes for worktrees, no for checkouts.
#[derive(PartialEq, Eq, Structural, Clone, Copy, Debug)]
pub enum WorkspaceModeChoice {
    Worktree,
    Checkout,
}

/// What an answer in a confirmation dialog does.
#[derive(PartialEq, Eq, Structural, Clone, Copy, Debug)]
pub enum ConfirmationStep {
    /// Nothing: not confirming, or a blocking preflight is still loading.
    Ignore,
    /// Move the selection between the dialog's buttons.
    ToggleSelection,
    /// Save the project's workspace mode; once saved, create the workspace
    /// from the sidebar.
    SetWorkspaceMode { choice: WorkspaceModeChoice },
    /// Remove the project; back to the sidebar.
    RemoveProject,
    /// Create the pull request; back to the chat.
    CreatePullRequest,
    /// Open the existing pull request in the browser; back to the chat.
    OpenExistingPr,
    /// Send the message that could not steer; back to the chat.
    SteerFallback,
    /// Fork the session; back to the chat.
    Fork,
    /// Quit after saving the session state.
    Quit,
    /// Close the dialog and switch to the given mode.
    Dismiss { mode: InputMode },
}

/// Answering a confirmation dialog. Nothing happens outside confirmation
/// mode or while a blocking preflight loads; a preflight still in progress
/// ignores yes and no. Yes carries out what the dialog asked; no declines
/// it, except the workspace-mode question, where it picks checkouts. The
/// dialog's context is taken before the answer is handled, so declining
/// returns to the chat when tabs are open and to the sidebar otherwise.
pub open spec fn confirmation_step(answer: ConfirmAnswer, confirming: bool, blocking_loading: bool, kind: Option<ConfirmationKind>, has_tabs: bool) -> ConfirmationStep {
    if !confirming || blocking_loading {
        ConfirmationStep::Ignore
    } else {
        match answer {
            ConfirmAnswer::Toggle => ConfirmationStep::ToggleSelection,
            ConfirmAnswer::Yes => match kind {
                None => ConfirmationStep::Ignore,
                Some(ConfirmationKind::SelectWorkspaceMode) => ConfirmationStep::SetWorkspaceMode { choice: WorkspaceModeChoice::Worktree },
                Some(ConfirmationKind::RemoveProject) => ConfirmationStep::RemoveProject,
                Some(ConfirmationKind::RemoveProjectPreflightInProgress) => ConfirmationStep::Ignore,
                Some(ConfirmationKind::CreatePullRequest) => ConfirmationStep::CreatePullRequest,
                Some(ConfirmationKind::OpenExistingPr) => ConfirmationStep::OpenExistingPr,
                Some(ConfirmationKind::SteerFallback) => ConfirmationStep::SteerFallback,
                Some(ConfirmationKind::ForkSession) => ConfirmationStep::Fork,
                Some(ConfirmationKind::ForkSessionPreflightInProgress) => ConfirmationStep::Ignore,
                Some(ConfirmationKind::Quit) => ConfirmationStep::Quit,
            },
            ConfirmAnswer::No => match kind {
                Some(ConfirmationKind::SelectWorkspaceMode) => ConfirmationStep::SetWorkspaceMode { choice: WorkspaceModeChoice::Checkout },
                Some(ConfirmationKind::RemoveProjectPreflightInProgress)
                | Some(ConfirmationKind::ForkSessionPreflightInProgress) => ConfirmationStep::Ignore,
                _ => ConfirmationStep::Dismiss { mode: dismissal(None, has_tabs).0 },
            },
        }
    }
}

/// Decides what an answer in a confirmation dialog does; `kind` is what the
/// dialog asks about, if it still knows.
pub fn answer_confirmation(answer: ConfirmAnswer, confirming: bool, blocking_loading: bool, kind: Option<ConfirmationKind>, has_tabs: bool) -> (r: ConfirmationStep)
    ensures
        r == confirmation_step(answer, confirming, blocking_loading, kind, has_tabs),
{
    if !confirming || blocking_loading {
        return ConfirmationStep::Ignore;
    }
    match answer {
        ConfirmAnswer::Toggle => ConfirmationStep::ToggleSelection,
        ConfirmAnswer::Yes => match kind {
            None => ConfirmationStep::Ignore,
            Some(ConfirmationKind::SelectWorkspaceMode) => ConfirmationStep::SetWorkspaceMode { choice: WorkspaceModeChoice::Worktree },
            Some(ConfirmationKind::RemoveProject) => ConfirmationStep::RemoveProject,
            Some(ConfirmationKind::RemoveProjectPreflightInProgress) => ConfirmationStep::Ignore,
            Some(ConfirmationKind::CreatePullRequest) => ConfirmationStep::CreatePullRequest,
            Some(ConfirmationKind::OpenExistingPr) => ConfirmationStep::OpenExistingPr,
            Some(ConfirmationKind::SteerFallback) => ConfirmationStep::SteerFallback,
            Some(ConfirmationKind::ForkSession) => ConfirmationStep::Fork,
            Some(ConfirmationKind::ForkSessionPreflightInProgress) => ConfirmationStep::Ignore,
            Some(ConfirmationKind::Quit) => ConfirmationStep::Quit,
        },
        ConfirmAnswer::No => match kind {
            Some(ConfirmationKind::SelectWorkspaceMode) => ConfirmationStep::SetWorkspaceMode { choice: WorkspaceModeChoice::Checkout },
            Some(ConfirmationKind::RemoveProjectPreflightInProgress)
            | Some(ConfirmationKind::ForkSessionPreflightInProgress) => ConfirmationStep::Ignore,
            _ => {
                let (mode, _) = dismiss_confirmation(None, has_tabs);
                ConfirmationStep::Dismiss { mode }
            },
        },
    }
}

/// What saving a project's workspace mode does: nothing when the mode is
/// already set to it, a refusal while the project has active workspaces,
/// otherwise a write of the new mode (`Ok(true)`).
pub open spec fn mode_change(existing: Option<WorkspaceModeChoice>, requested: WorkspaceModeChoice, active_workspaces: u64) -> Result<bool, Seq<char>> {
    if existing == Some(requested) {
        Ok(false)
    } else if active_workspaces > 0 {
        Err("Cannot change workspace mode while active workspaces exist."@)
    } else {
        Ok(true)
    }
}

/// Decides whether a project's workspace mode can change.
pub fn change_workspace_mode(existing: Option<WorkspaceModeChoice>, requested: WorkspaceModeChoice, active_workspaces: u64) -> (r: Result<bool, String>)
    ensures
        match r {
            Ok(w) => mode_change(existing, requested, active_workspaces) == Ok::<bool, Seq<char>>(w),
            Err(e) => mode_change(existing, requested, active_workspaces) == Err::<bool, Seq<char>>(e@),
        },
{
    if existing == Some(requested) {
        Ok(false)
    } else if active_workspaces > 0 {
        Err(string_from_str("Cannot change workspace mode while active workspaces exist."))
    } else {
        Ok(true)
    }
}

/// The question asked before a project's first workspace: its text names
/// the project, and the button of the configured default mode is selected.
pub fn workspace_mode_question(project: &str, default_is_worktree: bool) -> (r: (String, bool))
    ensures
        r.0@ == "Choose how Conduit should create workspaces for \""@ + project@
            + "\".\n\nYou can change this later when no active workspaces exist."@,
        r.1 == default_is_worktree,
{
    let mut d = string_from_str("Choose how Conduit should create workspaces for \"");
    push_str(&mut d, project);
    push_str(&mut d, "\".\n\nYou can change this later when no active workspaces exist.");
    (d, default_is_worktree)
}

/// While a blocking preflight loads, no answer has any effect.
pub proof fn lemma_loading_dialog_ignores_answers(answer: ConfirmAnswer, kind: Option<ConfirmationKind>, has_tabs: bool)
    ensures
        confirmation_step(answer, true, true, kind, has_tabs) == ConfirmationStep::Ignore,
{
}

/// The mode that follows the active tab: a file tab views the file, and
/// leaving one returns to normal; other modes are kept.
pub open spec fn mode_for_tab(mode: InputMode, active_is_file: bool) -> InputMode {
    match mode {
        InputMode::Normal | InputMode::Scrolling | InputMode::FileViewer => if active_is_file {
            InputMode::FileViewer
        } else if mode == InputMode::FileViewer {
            InputMode::Normal
        } else {
            mode
        },
        _ => mode,
    }
}

/// Keeps the input mode in line with the kind of the active tab.
pub fn sync_input_mode_for_active_tab(mode: InputMode, active_is_file: bool) -> (m: InputMode)
    ensures
        m == mode_for_tab(mode, active_is_file),
{
    match mode {
        InputMode::Normal | InputMode::Scrolling | InputMode::FileViewer => {
            if active_is_file {
                InputMode::FileViewer
            } else if mode == InputMode::FileViewer {
                InputMode::Normal
            } else {
                mode
            }
        },
        _ => mode,
    }
}

/// What to do with the footer spinner.
#[derive(PartialEq, Eq, Structural, Clone, Copy, Debug)]
pub enum SpinnerChange {
    Start,
    Stop,
    Keep,
}

/// The spinner runs while the active tab's agent works and is not waiting
/// for an answer from the user.
pub fn sync_footer_spinner(active_processing: bool, has_inline_prompt: bool, spinner_running: bool) -> (c: SpinnerChange)
    ensures
        c == (if active_processing && !has_inline_prompt {
            if spinner_running { SpinnerChange::Keep } else { SpinnerChange::Start }
        } else if spinner_running {
            SpinnerChange::Stop
        } else {
            SpinnerChange::Keep
        }),
{
    if active_processing && !has_inline_prompt {
        if !spinner_running {
            SpinnerChange::Start
        } else {
            SpinnerChange::Keep
        }
    } else if spinner_running {
        SpinnerChange::Stop
    } else {
        SpinnerChange::Keep
    }
}

/// Why the model picker is open.
#[derive(PartialEq, Eq, Structural, Clone, Copy, Debug)]
pub enum ModelPickerContext {
    SessionSelection,
    OnboardingDefaultSelection,
    SettingsDefaultSelection,
    HandoffSelection,
    WorkspaceReadyConfig,
    WorkspaceReadyAdversarialConfig,
}

/// What closing the model picker by clicking outside it leads to.
#[derive(PartialEq, Eq, Structural, Clone, Copy, Debug)]
pub enum PickerDismissal {
    /// Back to the given mode; `drop_new_project` drops a pending new-project
    /// flow.
    ToMode { mode: InputMode, drop_new_project: bool },
    /// Back to the settings menu.
    ReopenSettings,
}

/// Closing the model picker: onboarding drops the new-project flow, the
/// settings default returns to the settings menu, the workspace-ready
/// choices return to the creation dialog, anything else to normal mode. The
/// picker's context is reset in every case.
pub open spec fn picker_dismissal(ctx: ModelPickerContext) -> PickerDismissal {
    match ctx {
        ModelPickerContext::OnboardingDefaultSelection => PickerDismissal::ToMode { mode: InputMode::Normal, drop_new_project: true },
        ModelPickerContext::SettingsDefaultSelection => PickerDismissal::ReopenSettings,
        ModelPickerContext::WorkspaceReadyConfig | ModelPickerContext::WorkspaceReadyAdversarialConfig => PickerDismissal::ToMode { mode: InputMode::CreatingWorkspace, drop_new_project: false },
        _ => PickerDismissal::ToMode { mode: InputMode::Normal, drop_new_project: false },
    }
}

/// Decides where closing the model picker leads.
pub fn dismiss_model_picker(ctx: ModelPickerContext) -> (d: PickerDismissal)
    ensures
        d == picker_dismissal(ctx),
{
    match ctx {
        ModelPickerContext::OnboardingDefaultSelection => PickerDismissal::ToMode { mode: InputMode::Normal, drop_new_project: true },
        ModelPickerContext::SettingsDefaultSelection => PickerDismissal::ReopenSettings,
        ModelPickerContext::WorkspaceReadyConfig | ModelPickerContext::WorkspaceReadyAdversarialConfig => PickerDismissal::ToMode { mode: InputMode::CreatingWorkspace, drop_new_project: false },
        _ => PickerDismissal::ToMode { mode: InputMode::Normal, drop_new_project: false },
    }
}

/// What a click on a model in the picker leads to.
#[derive(PartialEq, Eq, Structural, Clone, Copy, Debug)]
pub enum ModelChoice {
    /// The model's agent tool is not installed: say so and keep the picker.
    MissingTool,
    /// Save the default model; once saved, go on with the new project.
    SaveDefaultThenContinueProject,
    /// Save the default model; once saved, go back to the settings menu.
    SaveDefaultThenReopenSettings,
    /// Hand the session over to the chosen agent and model.
    Handoff,
    /// Use the model for the workspace being created.
    SetWorkspaceModel,
    /// Use the model for the adversarial review of the workspace being created.
    SetWorkspaceAdversarialModel,
    /// Switch the active session to the model.
    SwitchSession,
}

/// The effect of choosing a model: nothing happens without the agent's
/// tool; otherwise the picker's context decides.
pub open spec fn model_choice(ctx: ModelPickerContext, tool_available: bool) -> ModelChoice {
    if !tool_available {
        ModelChoice::MissingTool
    } else {
        match ctx {
            ModelPickerContext::OnboardingDefaultSelection => ModelChoice::SaveDefaultThenContinueProject,
            ModelPickerContext::SettingsDefaultSelection => ModelChoice::SaveDefaultThenReopenSettings,
            ModelPickerContext::HandoffSelection => ModelChoice::Handoff,
            ModelPickerContext::WorkspaceReadyConfig => ModelChoice::SetWorkspaceModel,
            ModelPickerContext::WorkspaceReadyAdversarialConfig => ModelChoice::SetWorkspaceAdversarialModel,
            ModelPickerContext::SessionSelection => ModelChoice::SwitchSession,
        }
    }
}

/// Decides what choosing a model in the picker does.
pub fn choose_model(ctx: ModelPickerContext, tool_available: bool) -> (c: ModelChoice)
    ensures
        c == model_choice(ctx, tool_available),
{
    if !tool_available {
        return ModelChoice::MissingTool;
    }
    match ctx {
        ModelPickerContext::OnboardingDefaultSelection => ModelChoice::SaveDefaultThenContinueProject,
        ModelPickerContext::SettingsDefaultSelection => ModelChoice::SaveDefaultThenReopenSettings,
        ModelPickerContext::HandoffSelection => ModelChoice::Handoff,
        ModelPickerContext::WorkspaceReadyConfig => ModelChoice::SetWorkspaceModel,
        ModelPickerContext::WorkspaceReadyAdversarialConfig => ModelChoice::SetWorkspaceAdversarialModel,
        ModelPickerContext::SessionSelection => ModelChoice::SwitchSession,
    }
}

/// The note a session shows after its model changed: the agent is named
/// when it changed too.
pub open spec fn model_switch_text(agent_changed: bool, agent: Seq<char>, model: Seq<char>) -> Seq<char> {
    if agent_changed {
        "Switched to "@ + agent + " with model: "@ + model
    } else {
        "Model changed to: "@ + model
    }
}

/// Writes the note shown after a model switch.
pub fn model_switch_message(agent_changed: bool, agent: &str, model: &str) -> (s: String)
    ensures
        s@ == model_switch_text(agent_changed, agent@, model@),
{
    if agent_changed {
        let mut s = string_from_str("Switched to ");
        push_str(&mut s, agent);
        push_str(&mut s, " with model: ");
        push_str(&mut s, model);
        s
    } else {
        let mut s = string_from_str("Model changed to: ");
        push_str(&mut s, model);
        s
    }
}

/// The note after the reasoning effort was chosen; no effort means Auto.
pub open spec fn reasoning_text(effort: Option<Seq<char>>) -> Seq<char> {
    "Reasoning effort set to: "@ + match effort {
        Some(e) => e,
        None => "Auto"@,
    }
}

/// Writes the note shown after the reasoning effort was chosen.
pub fn reasoning_effort_message(effort: Option<&str>) -> (s: String)
    ensures
        s@ == reasoning_text(match effort { Some(e) => Some(e@), None => None }),
{
    let mut s = string_from_str("Reasoning effort set to: ");
    match effort {
        Some(e) => push_str(&mut s, e),
        None => push_str(&mut s, "Auto"),
    }
    s
}

/// The note after orchestration mode was switched on or off.
pub open spec fn orchestration_text(enabled: bool) -> Seq<char> {
    if enabled {
        "Orchestration mode enabled — sub-agents will be used for exploration and review"@
    } else {
        "Orchestration mode disabled"@
    }
}

/// Writes the note shown after orchestration mode was switched.
pub fn orchestration_message(enabled: bool) -> (s: String)
    ensures
        s@ == orchestration_text(enabled),
{
    if enabled {
        string_from_str("Orchestration mode enabled — sub-agents will be used for exploration and review")
    } else {
        string_from_str("Orchestration mode disabled")
    }
}

/// What the periodic tick refreshes: the footer spinner every second tick,
/// the splash animation every third, the other animations every sixth.
pub struct TickPlan {
    pub footer_spinner: bool,
    pub splash_animation: bool,
    /// The splash just reappeared and its animation starts over.
    pub reset_splash: bool,
    pub animations: bool,
    /// Look for projects added elsewhere (every five seconds).
    pub poll_projects: bool,
}

/// Plans a tick: `tick_count` is the count after this tick, `splash_visible`
/// whether no tab is open, `was_splash_visible` what the last splash tick
/// saw, and the times are milliseconds of the UI clock.
pub fn plan_tick(tick_count: u64, splash_visible: bool, was_splash_visible: bool, now_ms: u64, last_poll_ms: u64) -> (p: TickPlan)
    ensures
        p.footer_spinner == (tick_count % 2 == 0),
        p.splash_animation == (tick_count % 3 == 0 && splash_visible),
        p.reset_splash == (tick_count % 3 == 0 && splash_visible && !was_splash_visible),
        p.animations == (tick_count % 6 == 0),
        p.poll_projects == (tick_count % 6 == 0 && now_ms >= last_poll_ms && now_ms - last_poll_ms >= 5000),
{
    let third = tick_count % 3 == 0;
    let sixth = tick_count % 6 == 0;
    TickPlan {
        footer_spinner: tick_count % 2 == 0,
        splash_animation: third && splash_visible,
        reset_splash: third && splash_visible && !was_splash_visible,
        animations: sixth,
        poll_projects: sixth && now_ms >= last_poll_ms && now_ms - last_poll_ms >= 5000,
    }
}

} // verus!
