//! Decisions taken when a workspace is opened in a tab: which agents' chat
//! history can be brought back, whether a saved pending message is shown
//! again, and the session settings a workspace inherits from its project.
use vstd::prelude::*;
use crate::agent::AgentType;
use crate::text::{opt_chars, string_from_str, text_equals};

verus! {

/// The note shown instead of the chat history of a restored session whose
/// agent's history cannot be imported; none for the agents whose history is
/// loaded.
pub open spec fn history_notice(agent: AgentType) -> Option<Seq<char>> {
    match agent {
        AgentType::Claude | AgentType::Codex | AgentType::Opencode | AgentType::Pi => None,
        AgentType::Dirac => Some(
            "Dirac history import isn't supported yet, so previous messages won't be shown."@,
        ),
        AgentType::Gemini => Some(
            "Gemini CLI history import isn't supported yet, so previous messages won't be shown."@,
        ),
        AgentType::DeepseekTui => Some(
            "DeepSeek TUI history import isn't supported yet, so previous messages won't be shown."@,
        ),
        AgentType::Copilot => Some(
            "GitHub Copilot history import isn't supported yet, so previous messages won't be shown."@,
        ),
    }
}

/// The note for an agent whose history is not imported, or `None` when the
/// history is loaded from the agent's files.
pub fn history_import_notice(agent: AgentType) -> (r: Option<String>)
    ensures
        opt_chars(r) == history_notice(agent),
{
    match agent {
        AgentType::Claude | AgentType::Codex | AgentType::Opencode | AgentType::Pi => None,
        AgentType::Dirac => Some(
            string_from_str(
                "Dirac history import isn't supported yet, so previous messages won't be shown.",
            ),
        ),
        AgentType::Gemini => Some(
            string_from_str(
                "Gemini CLI history import isn't supported yet, so previous messages won't be shown.",
            ),
        ),
        AgentType::DeepseekTui => Some(
            string_from_str(
                "DeepSeek TUI history import isn't supported yet, so previous messages won't be shown.",
            ),
        ),
        AgentType::Copilot => Some(
            string_from_str(
                "GitHub Copilot history import isn't supported yet, so previous messages won't be shown.",
            ),
        ),
    }
}

/// Whether the UI can import a session of this agent from its files.
pub open spec fn import_supported(agent: AgentType) -> bool {
    agent == AgentType::Claude || agent == AgentType::Codex || agent == AgentType::Opencode || agent == AgentType::Pi
}

/// The note shown in a tab opened on a session whose agent cannot be
/// imported.
pub open spec fn import_notice(agent: AgentType) -> Option<Seq<char>> {
    match agent {
        AgentType::Dirac => Some("Dirac session import isn't supported yet."@),
        AgentType::Gemini => Some("Gemini CLI session import isn't supported yet."@),
        AgentType::DeepseekTui => Some("DeepSeek TUI session import isn't supported yet."@),
        AgentType::Copilot => Some("GitHub Copilot session import isn't supported yet."@),
        _ => None,
    }
}

/// The session ids of a tab opened on an imported session file whose name
/// (without extension) is `stem`: the file name, or `unknown` when it has
/// none, is kept for resuming and, except for Codex, as the live session;
/// agents whose sessions cannot be imported keep neither.
pub open spec fn imported_ids(agent: AgentType, stem: Option<Seq<char>>) -> (Option<Seq<char>>, Option<Seq<char>>) {
    let id = match stem {
        Some(s) => s,
        None => "unknown"@,
    };
    if !import_supported(agent) {
        (None, None)
    } else {
        (Some(id), if agent != AgentType::Codex { Some(id) } else { None })
    }
}

/// Sets up an imported session: (id to resume, live id) and the note to
/// show when the agent's sessions cannot be imported.
pub fn imported_session(agent: AgentType, stem: Option<&str>) -> (r: (Option<String>, Option<String>, Option<String>))
    ensures
        (opt_chars(r.0), opt_chars(r.1)) == imported_ids(agent, match stem { Some(s) => Some(s@), None => None }),
        opt_chars(r.2) == import_notice(agent),
        (r.2 is None) == import_supported(agent),
{
    let notice = match agent {
        AgentType::Dirac => Some(string_from_str("Dirac session import isn't supported yet.")),
        AgentType::Gemini => Some(string_from_str("Gemini CLI session import isn't supported yet.")),
        AgentType::DeepseekTui => Some(string_from_str("DeepSeek TUI session import isn't supported yet.")),
        AgentType::Copilot => Some(string_from_str("GitHub Copilot session import isn't supported yet.")),
        _ => None,
    };
    if notice.is_some() {
        return (None, None, notice);
    }
    let id = match stem {
        Some(s) => string_from_str(s),
        None => string_from_str("unknown"),
    };
    let live = if agent != AgentType::Codex { Some(id.clone()) } else { None };
    (Some(id), live, None)
}

/// A saved message that was waiting for the agent is shown again, unless
/// the last user message of the restored history already is that message.
pub fn restore_pending_message(last_user_message: Option<&str>, pending: &str) -> (b: bool)
    ensures
        b == !(match last_user_message {
            Some(m) => m@ == pending@,
            None => false,
        }),
{
    match last_user_message {
        Some(m) => !text_equals(m, pending),
        None => true,
    }
}

/// The settings a session in a workspace takes from the workspace, then its
/// project, then the global configuration.
pub struct InheritedSettings {
    pub orchestration_enabled: bool,
    pub adversarial_review_enabled: bool,
    pub adversarial_review_model: Option<String>,
}

pub open spec fn first_set<T>(a: Option<T>, b: Option<T>) -> Option<T> {
    match a {
        Some(x) => Some(x),
        None => b,
    }
}

fn first_set_of<T>(a: Option<T>, b: Option<T>) -> (r: Option<T>)
    ensures
        r == first_set(a, b),
{
    match a {
        Some(x) => Some(x),
        None => b,
    }
}

/// Resolves the orchestration and adversarial-review settings of a session
/// opened in a workspace: workspace override, then project override, then
/// the global default (off for the review). Only sessions of the agent that
/// runs sub-agents take them.
pub fn inherited_session_settings(
    agent: AgentType,
    workspace_orchestration: Option<bool>,
    project_orchestration: Option<bool>,
    global_orchestration: bool,
    workspace_review: Option<bool>,
    project_review: Option<bool>,
    workspace_review_model: Option<String>,
    project_review_model: Option<String>,
) -> (r: Option<InheritedSettings>)
    ensures
        agent != AgentType::Claude ==> r is None,
        agent == AgentType::Claude ==> (r matches Some(s) && s.orchestration_enabled == (match first_set(
            workspace_orchestration,
            project_orchestration,
        ) {
            Some(b) => b,
            None => global_orchestration,
        }) && s.adversarial_review_enabled == (match first_set(workspace_review, project_review) {
            Some(b) => b,
            None => false,
        }) && opt_chars(s.adversarial_review_model) == opt_chars(
            first_set(workspace_review_model, project_review_model),
        )),
{
    if agent != AgentType::Claude {
        return None;
    }
    let orchestration = match first_set_of(workspace_orchestration, project_orchestration) {
        Some(b) => b,
        None => global_orchestration,
    };
    let review = match first_set_of(workspace_review, project_review) {
        Some(b) => b,
        None => false,
    };
    Some(
        InheritedSettings {
            orchestration_enabled: orchestration,
            adversarial_review_enabled: review,
            adversarial_review_model: first_set_of(workspace_review_model, project_review_model),
        },
    )
}

/// Why a fresh session cannot replace the active one: there is none, or its
/// agent is still working. The message shows for three seconds.
pub fn new_session_refusal(has_active_session: bool, is_processing: bool) -> (r: Option<crate::persistence::TimedMessage>)
    ensures
        !has_active_session ==> (r matches Some(m) && m.text@ == "No active session to reset"@ && m.seconds == 3),
        has_active_session && is_processing ==> (r matches Some(m) && m.text@ == "Stop the agent before starting a new session"@
            && m.seconds == 3),
        has_active_session && !is_processing ==> r is None,
{
    if !has_active_session {
        Some(crate::persistence::TimedMessage { text: string_from_str("No active session to reset"), seconds: 3 })
    } else if is_processing {
        Some(
            crate::persistence::TimedMessage {
                text: string_from_str("Stop the agent before starting a new session"),
                seconds: 3,
            },
        )
    } else {
        None
    }
}

// ---------------------------------------------------------------------------
// New projects
// ---------------------------------------------------------------------------

/// What the new-project flow shows next.
#[derive(PartialEq, Eq, Structural, Clone, Copy, Debug)]
pub enum NewProjectStep {
    /// No project is being added: back to the chat.
    Done,
    /// Onboarding: choose the agent CLIs first.
    ChooseProviders,
    /// Onboarding: choose the default model first.
    ChooseModel,
    /// Open the project picker or the projects-directory dialog.
    OpenTarget,
}

/// A pending new project first needs the agent CLIs and then a default
/// model to be configured; then its target opens.
pub open spec fn new_project_step(has_target: bool, providers_configured: bool, model_configured: bool) -> NewProjectStep {
    if !has_target {
        NewProjectStep::Done
    } else if !providers_configured {
        NewProjectStep::ChooseProviders
    } else if !model_configured {
        NewProjectStep::ChooseModel
    } else {
        NewProjectStep::OpenTarget
    }
}

/// Decides the next step of the new-project flow.
pub fn continue_new_project(has_target: bool, providers_configured: bool, model_configured: bool) -> (r: NewProjectStep)
    ensures
        r == new_project_step(has_target, providers_configured, model_configured),
{
    if !has_target {
        NewProjectStep::Done
    } else if !providers_configured {
        NewProjectStep::ChooseProviders
    } else if !model_configured {
        NewProjectStep::ChooseModel
    } else {
        NewProjectStep::OpenTarget
    }
}

/// A text without its leading slashes.
pub open spec fn without_leading_slashes(s: Seq<char>) -> Seq<char>
    decreases s.len(),
{
    if s.len() > 0 && s[0] == '/' {
        without_leading_slashes(s.drop_first())
    } else {
        s
    }
}

/// For a stored projects directory that starts with `~`, the part below
/// the home directory (after `~` and any slashes); none for other paths.
pub open spec fn home_relative_dir(base: Seq<char>) -> Option<Seq<char>> {
    if base.len() > 0 && base[0] == '~' {
        Some(without_leading_slashes(base.drop_first()))
    } else {
        None
    }
}

/// Reads a stored projects directory: `Some` with the part to join to the
/// home directory when it starts with `~`.
pub fn projects_dir_below_home(base: &str) -> (r: Option<String>)
    ensures
        opt_chars(r) == home_relative_dir(base@),
{
    let cs = crate::text::chars_of(base);
    if cs.len() == 0 || cs[0] != '~' {
        return None;
    }
    let mut i: usize = 1;
    assert(base@.skip(1) =~= base@.drop_first());
    while i < cs.len() && cs[i] == '/'
        invariant
            1 <= i <= cs.len(),
            cs@ == base@,
            without_leading_slashes(base@.drop_first()) == without_leading_slashes(base@.skip(i as int)),
        decreases cs.len() - i,
    {
        assert(base@.skip(i as int)[0] == cs@[i as int]);
        assert(base@.skip(i as int).drop_first() =~= base@.skip(i + 1));
        i = i + 1;
    }
    let mut rest: Vec<char> = Vec::new();
    let start = i;
    while i < cs.len()
        invariant
            start <= i <= cs.len(),
            cs@ == base@,
            rest@ == base@.subrange(start as int, i as int),
        decreases cs.len() - i,
    {
        rest.push(cs[i]);
        i = i + 1;
        assert(rest@ =~= base@.subrange(start as int, i as int));
    }
    proof {
        assert(base@.subrange(start as int, cs.len() as int) =~= base@.skip(start as int));
        if start < cs.len() {
            assert(base@.skip(start as int)[0] == cs@[start as int]);
        }
    }
    Some(crate::text::string_from_chars(rest.as_slice()))
}

} // verus!
