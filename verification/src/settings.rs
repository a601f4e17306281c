//! The settings menu: the entries it lists with their current values, and
//! where choosing an entry leads.
use vstd::prelude::*;
use crate::command::InputMode;
use crate::persistence::TimedMessage;
use crate::text::{join_texts, join_with, push_str, string_from_str, views};

verus! {

/// The entries of the settings menu.
#[derive(PartialEq, Eq, Structural, Clone, Copy, Debug)]
pub enum SettingsEntryId {
    ProjectsDirectory,
    DefaultModel,
    EnabledProviders,
    Theme,
    WorkspaceDefaults,
    Keybindings,
}

/// One line of the settings menu.
pub struct SettingsEntry {
    pub id: SettingsEntryId,
    pub title: String,
    pub description: String,
    pub value: String,
}

pub open spec fn entry_view(e: SettingsEntry) -> (SettingsEntryId, Seq<char>, Seq<char>, Seq<char>) {
    (e.id, e.title@, e.description@, e.value@)
}

pub open spec fn on_off(b: bool) -> Seq<char> {
    if b {
        "on"@
    } else {
        "off"@
    }
}

/// The value of the default-model entry: the agent's name, then the model's
/// display name when the model is known, else its id.
pub open spec fn default_model_value(agent: Seq<char>, model_name: Option<Seq<char>>, model_id: Seq<char>) -> Seq<char> {
    agent + ": "@ + match model_name {
        Some(n) => n,
        None => model_id,
    }
}

/// The value of the providers entry: their names, or `None`.
pub open spec fn providers_value(names: Seq<Seq<char>>) -> Seq<char> {
    if names.len() == 0 {
        "None"@
    } else {
        join_with(names, ", "@)
    }
}

/// The value of the theme entry: the configured theme name, else the theme
/// file, else the theme in use.
pub open spec fn theme_value(name: Option<Seq<char>>, path: Option<Seq<char>>, current: Seq<char>) -> Seq<char> {
    match name {
        Some(n) => n,
        None => match path {
            Some(p) => p,
            None => current,
        },
    }
}

/// The value of the workspace-defaults entry.
pub open spec fn defaults_value(mode: Seq<char>, delete_branch: bool, remote_prompt: bool) -> Seq<char> {
    mode + ", delete branch "@ + on_off(delete_branch) + ", remote prompt "@ + on_off(remote_prompt)
}

/// The menu, in display order.
pub open spec fn menu_entries(
    projects_dir: Option<Seq<char>>,
    agent: Seq<char>,
    model_name: Option<Seq<char>>,
    model_id: Seq<char>,
    providers: Seq<Seq<char>>,
    theme_name: Option<Seq<char>>,
    theme_path: Option<Seq<char>>,
    current_theme: Seq<char>,
    workspace_mode: Seq<char>,
    delete_branch: bool,
    remote_prompt: bool,
) -> Seq<(SettingsEntryId, Seq<char>, Seq<char>, Seq<char>)> {
    seq![
        (
            SettingsEntryId::ProjectsDirectory,
            "Projects Directory"@,
            "Where Conduit scans for local git projects"@,
            match projects_dir {
                Some(d) => d,
                None => "Not set"@,
            },
        ),
        (
            SettingsEntryId::DefaultModel,
            "Default Model"@,
            "Agent + model used for new sessions"@,
            default_model_value(agent, model_name, model_id),
        ),
        (
            SettingsEntryId::EnabledProviders,
            "Agent CLIs"@,
            "Agent CLIs available for new sessions"@,
            providers_value(providers),
        ),
        (SettingsEntryId::Theme, "Theme"@, "Active color theme"@, theme_value(theme_name, theme_path, current_theme)),
        (
            SettingsEntryId::WorkspaceDefaults,
            "Workspace Defaults"@,
            "Defaults applied when a repo has no override"@,
            defaults_value(workspace_mode, delete_branch, remote_prompt),
        ),
        (SettingsEntryId::Keybindings, "Keybindings"@, "Customize keyboard shortcuts"@, Seq::empty()),
    ]
}

pub open spec fn opt_str(o: Option<&str>) -> Option<Seq<char>> {
    match o {
        Some(s) => Some(s@),
        None => None,
    }
}

fn entry(id: SettingsEntryId, title: &str, description: &str, value: String) -> (e: SettingsEntry)
    ensures
        entry_view(e) == (id, title@, description@, value@),
{
    SettingsEntry { id, title: string_from_str(title), description: string_from_str(description), value }
}

fn push_on_off(s: &mut String, b: bool)
    ensures
        final(s)@ == old(s)@ + on_off(b),
{
    if b {
        push_str(s, "on");
    } else {
        push_str(s, "off");
    }
}

/// Builds the settings menu from the current configuration: the stored
/// projects directory, the default agent's name with its model's display
/// name (when the model is known) and id, the names of the enabled agent
/// CLIs, the configured theme name or file and the theme in use, and the
/// workspace defaults.
pub fn settings_menu_entries(
    projects_dir: Option<&str>,
    agent: &str,
    model_name: Option<&str>,
    model_id: &str,
    providers: &Vec<String>,
    theme_name: Option<&str>,
    theme_path: Option<&str>,
    current_theme: &str,
    workspace_mode: &str,
    delete_branch: bool,
    remote_prompt: bool,
) -> (r: Vec<SettingsEntry>)
    ensures
        r@.map_values(|e: SettingsEntry| entry_view(e)) == menu_entries(
            opt_str(projects_dir),
            agent@,
            opt_str(model_name),
            model_id@,
            views(providers@),
            opt_str(theme_name),
            opt_str(theme_path),
            current_theme@,
            workspace_mode@,
            delete_branch,
            remote_prompt,
        ),
{
    let dir = match projects_dir {
        Some(d) => string_from_str(d),
        None => string_from_str("Not set"),
    };
    let mut model = string_from_str(agent);
    push_str(&mut model, ": ");
    match model_name {
        Some(n) => push_str(&mut model, n),
        None => push_str(&mut model, model_id),
    }
    let enabled = if providers.len() == 0 {
        string_from_str("None")
    } else {
        join_texts(providers, ", ")
    };
    let theme = match theme_name {
        Some(n) => string_from_str(n),
        None => match theme_path {
            Some(p) => string_from_str(p),
            None => string_from_str(current_theme),
        },
    };
    let mut defaults = string_from_str(workspace_mode);
    push_str(&mut defaults, ", delete branch ");
    push_on_off(&mut defaults, delete_branch);
    push_str(&mut defaults, ", remote prompt ");
    push_on_off(&mut defaults, remote_prompt);
    let mut r: Vec<SettingsEntry> = Vec::new();
    r.push(entry(SettingsEntryId::ProjectsDirectory, "Projects Directory", "Where Conduit scans for local git projects", dir));
    r.push(entry(SettingsEntryId::DefaultModel, "Default Model", "Agent + model used for new sessions", model));
    r.push(entry(SettingsEntryId::EnabledProviders, "Agent CLIs", "Agent CLIs available for new sessions", enabled));
    r.push(entry(SettingsEntryId::Theme, "Theme", "Active color theme", theme));
    r.push(entry(SettingsEntryId::WorkspaceDefaults, "Workspace Defaults", "Defaults applied when a repo has no override", defaults));
    r.push(entry(SettingsEntryId::Keybindings, "Keybindings", "Customize keyboard shortcuts", String::new()));
    assert(r@.map_values(|e: SettingsEntry| entry_view(e)) =~= menu_entries(
        opt_str(projects_dir),
        agent@,
        opt_str(model_name),
        model_id@,
        views(providers@),
        opt_str(theme_name),
        opt_str(theme_path),
        current_theme@,
        workspace_mode@,
        delete_branch,
        remote_prompt,
    ));
    r
}

/// Where choosing a settings entry leads.
#[derive(PartialEq, Eq, Structural, Clone, Copy, Debug)]
pub enum SettingTarget {
    /// The entry's dialog opens in the given mode; the menu comes back when
    /// it closes.
    Open { mode: InputMode },
    /// No agent CLI is enabled, so no default model can be picked.
    NoProviders,
}

pub open spec fn setting_target(id: SettingsEntryId, has_enabled_providers: bool) -> SettingTarget {
    match id {
        SettingsEntryId::ProjectsDirectory => SettingTarget::Open { mode: InputMode::SettingBaseDir },
        SettingsEntryId::DefaultModel => if has_enabled_providers {
            SettingTarget::Open { mode: InputMode::SelectingModel }
        } else {
            SettingTarget::NoProviders
        },
        SettingsEntryId::EnabledProviders => SettingTarget::Open { mode: InputMode::SelectingProviders },
        SettingsEntryId::Theme => SettingTarget::Open { mode: InputMode::SelectingTheme },
        SettingsEntryId::WorkspaceDefaults => SettingTarget::Open { mode: InputMode::WorkspaceDefaults },
        SettingsEntryId::Keybindings => SettingTarget::Open { mode: InputMode::KeybindingsEditor },
    }
}

/// Decides where choosing a settings entry leads.
pub fn open_setting(id: SettingsEntryId, has_enabled_providers: bool) -> (t: SettingTarget)
    ensures
        t == setting_target(id, has_enabled_providers),
{
    match id {
        SettingsEntryId::ProjectsDirectory => SettingTarget::Open { mode: InputMode::SettingBaseDir },
        SettingsEntryId::DefaultModel => if has_enabled_providers {
            SettingTarget::Open { mode: InputMode::SelectingModel }
        } else {
            SettingTarget::NoProviders
        },
        SettingsEntryId::EnabledProviders => SettingTarget::Open { mode: InputMode::SelectingProviders },
        SettingsEntryId::Theme => SettingTarget::Open { mode: InputMode::SelectingTheme },
        SettingsEntryId::WorkspaceDefaults => SettingTarget::Open { mode: InputMode::WorkspaceDefaults },
        SettingsEntryId::Keybindings => SettingTarget::Open { mode: InputMode::KeybindingsEditor },
    }
}

/// The footer message shown for four seconds when a default model is asked
/// for while no agent CLI is enabled.
pub fn no_providers_message() -> (m: TimedMessage)
    ensures
        m.text@ == "No enabled providers available. Use providers first."@,
        m.seconds == 4,
{
    TimedMessage { text: string_from_str("No enabled providers available. Use providers first."), seconds: 4 }
}

/// What bringing the theme in line with a project does.
pub enum ThemeAction {
    /// The wanted theme is already in use.
    Keep,
    /// Load the project's theme by name.
    LoadProject { name: String },
    /// Go back to the theme of the configuration.
    UseConfigured,
}

pub open spec fn theme_action_view(a: ThemeAction) -> Option<Option<Seq<char>>> {
    match a {
        ThemeAction::Keep => None,
        ThemeAction::LoadProject { name } => Some(Some(name@)),
        ThemeAction::UseConfigured => Some(None),
    }
}

/// The theme used when the configuration names none.
pub open spec fn default_theme_name() -> Seq<char> {
    "Night Owl"@
}

/// A project with a theme of its own gets it unless it is already in use;
/// otherwise the configured theme (Night Owl by default) is restored, unless
/// it is in use and no theme file is configured.
pub open spec fn theme_action(project_theme: Option<Seq<char>>, current: Seq<char>, configured: Option<Seq<char>>, has_theme_file: bool) -> Option<Option<Seq<char>>> {
    match project_theme {
        Some(name) => if current == name {
            None
        } else {
            Some(Some(name))
        },
        None => {
            let desired = match configured {
                Some(n) => n,
                None => default_theme_name(),
            };
            if !has_theme_file && current == desired {
                None
            } else {
                Some(None)
            }
        },
    }
}

/// Decides how the theme follows the active tab or the project selected in
/// the sidebar: `project_theme` is that project's theme, `current` the
/// theme in use, `configured` the theme named in the configuration.
pub fn sync_theme(project_theme: Option<&str>, current: &str, configured: Option<&str>, has_theme_file: bool) -> (a: ThemeAction)
    ensures
        theme_action_view(a) == theme_action(opt_str(project_theme), current@, opt_str(configured), has_theme_file),
{
    match project_theme {
        Some(name) => if crate::text::text_equals(current, name) {
            ThemeAction::Keep
        } else {
            ThemeAction::LoadProject { name: string_from_str(name) }
        },
        None => {
            let desired = match configured {
                Some(n) => n,
                None => "Night Owl",
            };
            if !has_theme_file && crate::text::text_equals(current, desired) {
                ThemeAction::Keep
            } else {
                ThemeAction::UseConfigured
            }
        },
    }
}

} // verus!
