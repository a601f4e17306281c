//! Agent providers and the decisions the UI takes about them: which provider
//! a new session or a handoff uses, when a session counts as started, and how
//! a submitted prompt is delivered.
use vstd::prelude::*;
use crate::text::{opt_chars, string_from_str, text_has_visible, has_visible_text, views};
use crate::prompt::{strip_image_placeholders, without_placeholders};

verus! {

/// The agent command-line tools the UI can drive.
#[derive(PartialEq, Eq, Structural, Clone, Copy, Debug)]
pub enum AgentType {
    Claude,
    Codex,
    Gemini,
    DeepseekTui,
    Dirac,
    Opencode,
    Copilot,
    Pi,
}

/// The executables a provider needs on `PATH`.
#[derive(PartialEq, Eq, Structural, Clone, Copy, Debug)]
pub enum Tool {
    Claude,
    Codex,
    Gemini,
    DeepseekTui,
    Dirac,
    Opencode,
    Copilot,
    Pi,
}

/// Build or Plan mode of a session.
#[derive(PartialEq, Eq, Structural, Clone, Copy, Debug)]
pub enum AgentMode {
    Build,
    Plan,
}

/// The tool a provider needs.
pub open spec fn tool_for(agent: AgentType) -> Tool {
    match agent {
        AgentType::Claude => Tool::Claude,
        AgentType::Codex => Tool::Codex,
        AgentType::Gemini => Tool::Gemini,
        AgentType::DeepseekTui => Tool::DeepseekTui,
        AgentType::Dirac => Tool::Dirac,
        AgentType::Opencode => Tool::Opencode,
        AgentType::Copilot => Tool::Copilot,
        AgentType::Pi => Tool::Pi,
    }
}

/// Maps a provider to the tool it needs.
pub fn required_tool(agent: AgentType) -> (t: Tool)
    ensures
        t == tool_for(agent),
{
    match agent {
        AgentType::Claude => Tool::Claude,
        AgentType::Codex => Tool::Codex,
        AgentType::Gemini => Tool::Gemini,
        AgentType::DeepseekTui => Tool::DeepseekTui,
        AgentType::Dirac => Tool::Dirac,
        AgentType::Opencode => Tool::Opencode,
        AgentType::Copilot => Tool::Copilot,
        AgentType::Pi => Tool::Pi,
    }
}

/// What the missing tool was needed for.
#[derive(PartialEq, Eq, Structural, Clone, Copy, Debug)]
pub enum ToolNeed {
    UseModel,
    RestoreSession,
    OpenSavedSession,
    OpenWorkspace,
}

/// The message of the missing-tool dialog, naming the tool.
pub open spec fn missing_tool_text(tool: Seq<char>, need: ToolNeed) -> Seq<char> {
    tool + match need {
        ToolNeed::UseModel => " is required to use this model."@,
        ToolNeed::RestoreSession => " is required to restore this session."@,
        ToolNeed::OpenSavedSession => " is required to open this workspace's saved session."@,
        ToolNeed::OpenWorkspace => " is required to open this workspace."@,
    }
}

/// Writes the message of the missing-tool dialog for the tool's display
/// name.
pub fn missing_tool_message(tool: &str, need: ToolNeed) -> (s: String)
    ensures
        s@ == missing_tool_text(tool@, need),
{
    let mut s = string_from_str(tool);
    match need {
        ToolNeed::UseModel => crate::text::push_str(&mut s, " is required to use this model."),
        ToolNeed::RestoreSession => crate::text::push_str(&mut s, " is required to restore this session."),
        ToolNeed::OpenSavedSession => crate::text::push_str(
            &mut s,
            " is required to open this workspace's saved session.",
        ),
        ToolNeed::OpenWorkspace => crate::text::push_str(&mut s, " is required to open this workspace."),
    }
    s
}

/// Whether the reasoning-effort setting applies to a provider.
pub fn reasoning_supported(agent: AgentType) -> (b: bool)
    ensures
        b == (agent == AgentType::Claude || agent == AgentType::Codex),
{
    match agent {
        AgentType::Claude | AgentType::Codex => true,
        _ => false,
    }
}

/// A restored mode, or Build where the provider has no Plan mode.
pub fn clamp_agent_mode(supports_plan_mode: bool, mode: AgentMode) -> (m: AgentMode)
    ensures
        m == (if supports_plan_mode { mode } else { AgentMode::Build }),
{
    if supports_plan_mode {
        mode
    } else {
        AgentMode::Build
    }
}

/// What decides whether a session has started talking to its agent.
pub struct SessionActivity {
    pub has_agent_session_id: bool,
    pub has_resume_session_id: bool,
    pub has_live_input: bool,
    pub turn_count: u64,
}

pub open spec fn started(a: SessionActivity) -> bool {
    a.has_agent_session_id || a.has_resume_session_id || a.has_live_input || a.turn_count > 0
}

/// Whether the session has started: it has an agent session, one to resume,
/// a live input channel, or a completed turn.
pub fn session_started(a: &SessionActivity) -> (b: bool)
    ensures
        b == started(*a),
{
    a.has_agent_session_id || a.has_resume_session_id || a.has_live_input || a.turn_count > 0
}

/// The error shown when a started session is asked to change provider.
pub open spec fn cross_agent_error() -> Seq<char> {
    "Switching agent type after a session has started is not supported. Start a new session/tab to change agents."@
}

/// Refuses a provider change once the session has started; the refusal
/// carries the error message the session shows.
pub fn reject_cross_agent_switch(current: AgentType, target: AgentType, a: &SessionActivity) -> (r:
    Option<String>)
    ensures
        r.is_some() == (current != target && started(*a)),
        r matches Some(m) ==> m@ == cross_agent_error(),
{
    if current == target || !session_started(a) {
        return None;
    }
    let t = "Switching agent type after a session has started is not supported. Start a new session/tab to change agents.";
    proof {
        reveal_strlit("Switching agent type after a session has started is not supported. Start a new session/tab to change agents.");
    }
    Some(string_from_str(t))
}

/// The error shown when the reasoning effort is changed after the start.
pub open spec fn reasoning_locked_error() -> Seq<char> {
    "Changing reasoning effort after a session has started is not supported. Start a new session/tab."@
}

/// Refuses a reasoning-effort change once the session has started.
pub fn reject_reasoning_change(a: &SessionActivity) -> (r: Option<String>)
    ensures
        r.is_some() == started(*a),
        r matches Some(m) ==> m@ == reasoning_locked_error(),
{
    if !session_started(a) {
        return None;
    }
    let t = "Changing reasoning effort after a session has started is not supported. Start a new session/tab.";
    proof {
        reveal_strlit("Changing reasoning effort after a session has started is not supported. Start a new session/tab.");
    }
    Some(string_from_str(t))
}

/// Whether a provider list holds a provider.
pub fn contains_agent(list: &Vec<AgentType>, a: AgentType) -> (b: bool)
    ensures
        b == list@.contains(a),
{
    let mut i: usize = 0;
    while i < list.len()
        invariant
            i <= list.len(),
            forall|j: int| 0 <= j < i ==> list@[j] != a,
        decreases list.len() - i,
    {
        if list[i] == a {
            assert(list@[i as int] == a);
            return true;
        }
        i = i + 1;
    }
    false
}

/// The first provider of `order` that `enabled` holds and that is not
/// `excluded` (when one is given).
pub open spec fn first_enabled(order: Seq<AgentType>, enabled: Seq<AgentType>, excluded: Option<
    AgentType,
>) -> Option<AgentType>
    decreases order.len(),
{
    if order.len() == 0 {
        None
    } else if enabled.contains(order[0]) && excluded != Some(order[0]) {
        Some(order[0])
    } else {
        first_enabled(order.drop_first(), enabled, excluded)
    }
}

fn find_first_enabled(order: &Vec<AgentType>, enabled: &Vec<AgentType>, excluded: Option<AgentType>) -> (r:
    Option<AgentType>)
    ensures
        r == first_enabled(order@, enabled@, excluded),
{
    let mut i: usize = 0;
    assert(order@.skip(0) =~= order@);
    while i < order.len()
        invariant
            i <= order.len(),
            first_enabled(order@, enabled@, excluded) == first_enabled(order@.skip(i as int), enabled@, excluded),
        decreases order.len() - i,
    {
        proof {
            assert(order@.skip(i as int).drop_first() =~= order@.skip(i + 1));
            assert(order@.skip(i as int)[0] == order@[i as int]);
        }
        let p = order[i];
        let skip = match excluded {
            Some(x) => x == p,
            None => false,
        };
        if contains_agent(enabled, p) && !skip {
            return Some(p);
        }
        i = i + 1;
    }
    proof {
        assert(order@.skip(i as int).len() == 0);
    }
    None
}

/// The provider for a new session: the configured default when it is
/// enabled, otherwise the first enabled provider in preference order; none
/// when no provider is enabled.
pub open spec fn new_session_provider(enabled: Seq<AgentType>, default: AgentType, order: Seq<AgentType>) -> Option<AgentType> {
    if enabled.len() == 0 {
        None
    } else if enabled.contains(default) {
        Some(default)
    } else {
        first_enabled(order, enabled, None)
    }
}

/// Picks the provider for a new session.
pub fn preferred_provider_for_new_sessions(enabled: &Vec<AgentType>, default: AgentType, order: &Vec<AgentType>) -> (r: Option<AgentType>)
    ensures
        r == new_session_provider(enabled@, default, order@),
{
    if enabled.len() == 0 {
        return None;
    }
    if contains_agent(enabled, default) {
        return Some(default);
    }
    find_first_enabled(order, enabled, None)
}

/// The provider a handoff moves to: the first enabled provider in preference
/// order other than the source, else the provider for new sessions, else the
/// source itself.
pub open spec fn handoff_provider(enabled: Seq<AgentType>, default: AgentType, order: Seq<AgentType>, source: AgentType) -> AgentType {
    match first_enabled(order, enabled, Some(source)) {
        Some(p) => p,
        None => match new_session_provider(enabled, default, order) {
            Some(p) => p,
            None => source,
        },
    }
}

/// Picks the provider that a handoff moves to.
pub fn preferred_provider_for_handoff(enabled: &Vec<AgentType>, default: AgentType, order: &Vec<AgentType>, source: AgentType) -> (r: AgentType)
    ensures
        r == handoff_provider(enabled@, default, order@, source),
{
    if let Some(p) = find_first_enabled(order, enabled, Some(source)) {
        return p;
    }
    if let Some(p) = preferred_provider_for_new_sessions(enabled, default, order) {
        return p;
    }
    source
}

/// The providers offered by the session's model picker: the enabled ones,
/// plus the session's own provider when it is installed but not enabled.
pub open spec fn picker_providers(enabled: Seq<AgentType>, current: AgentType, current_installed: bool) -> Seq<AgentType> {
    if !enabled.contains(current) && current_installed {
        enabled.push(current)
    } else {
        enabled
    }
}

/// Builds the provider list of the session's model picker.
pub fn model_picker_providers(enabled: Vec<AgentType>, current: AgentType, current_installed: bool) -> (r: Vec<AgentType>)
    ensures
        r@ == picker_providers(enabled@, current, current_installed),
{
    let mut allowed = enabled;
    if !contains_agent(&allowed, current) && current_installed {
        allowed.push(current);
    }
    allowed
}

/// Whether a model switch must wait: the agent is working, a tool runs, a
/// message awaits confirmation, or a question is open.
pub fn should_block_model_switch(is_processing: bool, tools_in_flight: u64, has_pending_message: bool, has_inline_prompt: bool) -> (b: bool)
    ensures
        b == (is_processing || tools_in_flight > 0 || has_pending_message || has_inline_prompt),
{
    is_processing || tools_in_flight > 0 || has_pending_message || has_inline_prompt
}

/// The model shown on a sub-agent badge: the configured model when one is
/// set and not empty, otherwise the provider's fallback.
pub open spec fn subagent_model(agent: AgentType, configured: Option<Seq<char>>, claude_default: Seq<char>) -> Seq<char> {
    match configured {
        Some(m) if m.len() > 0 => m,
        _ => if agent == AgentType::Pi {
            "gemini-2.5-flash"@
        } else {
            claude_default
        },
    }
}

/// Chooses the model shown on a sub-agent badge.
pub fn fallback_subagent_model(agent: AgentType, configured: Option<&str>, claude_default: &str) -> (r: String)
    ensures
        r@ == subagent_model(agent, match configured { Some(c) => Some(c@), None => None }, claude_default@),
{
    if let Some(model) = configured {
        if crate::text::chars_of(model).len() > 0 {
            return string_from_str(model);
        }
    }
    match agent {
        AgentType::Pi => {
            let t = "gemini-2.5-flash";
            proof {
                reveal_strlit("gemini-2.5-flash");
            }
            string_from_str(t)
        },
        _ => string_from_str(claude_default),
    }
}


/// The sub-agent an orchestrating session delegates to when its agent calls
/// the `Agent` tool: the badge label and the model shown. Exploration and
/// review use the fast default model; the adversarial review uses the
/// session's review model, else the review default.
pub open spec fn delegation(
    tool_name: Seq<char>,
    orchestration: bool,
    subagent: Option<Seq<char>>,
    agent: AgentType,
    review_model: Option<Seq<char>>,
    fast_default: Seq<char>,
    review_default: Seq<char>,
) -> Option<(Seq<char>, Seq<char>)> {
    if tool_name == "Agent"@ && orchestration {
        match subagent {
            Some(k) => if k == "conduit-explore"@ {
                Some(("Explore"@, subagent_model(agent, None, fast_default)))
            } else if k == "conduit-review"@ {
                Some(("Review"@, subagent_model(agent, None, fast_default)))
            } else if k == "conduit-adversarial-review"@ {
                Some(("Adversarial Review"@, subagent_model(agent, review_model, review_default)))
            } else {
                None
            },
            None => None,
        }
    } else {
        None
    }
}

/// Recognises a sub-agent delegation in a started tool.
pub fn subagent_delegation(
    tool_name: &str,
    orchestration: bool,
    subagent: Option<&str>,
    agent: AgentType,
    review_model: Option<&str>,
    fast_default: &str,
    review_default: &str,
) -> (r: Option<(String, String)>)
    ensures
        match r {
            Some((l, m)) => delegation(tool_name@, orchestration, match subagent { Some(k) => Some(k@), None => None }, agent, match review_model { Some(k) => Some(k@), None => None }, fast_default@, review_default@) == Some((l@, m@)),
            None => delegation(tool_name@, orchestration, match subagent { Some(k) => Some(k@), None => None }, agent, match review_model { Some(k) => Some(k@), None => None }, fast_default@, review_default@) is None,
        },
{
    if !crate::text::text_equals(tool_name, "Agent") || !orchestration {
        return None;
    }
    let k = match subagent {
        Some(k) => k,
        None => return None,
    };
    if crate::text::text_equals(k, "conduit-explore") {
        Some((string_from_str("Explore"), fallback_subagent_model(agent, None, fast_default)))
    } else if crate::text::text_equals(k, "conduit-review") {
        Some((string_from_str("Review"), fallback_subagent_model(agent, None, fast_default)))
    } else if crate::text::text_equals(k, "conduit-adversarial-review") {
        Some((string_from_str("Adversarial Review"), fallback_subagent_model(agent, review_model, review_default)))
    } else {
        None
    }
}

// ---------------------------------------------------------------------------
// Resuming sessions
// ---------------------------------------------------------------------------

/// The agent session a new agent process resumes: none for a Codex session
/// that has no live channel and no session of its own yet (its saved thread
/// may be stale), otherwise the live session, else the saved one.
pub open spec fn resume_choice(agent: AgentType, has_live_input: bool, agent_session_id: Option<Seq<char>>, resume_session_id: Option<Seq<char>>) -> Option<Seq<char>> {
    if agent == AgentType::Codex && !has_live_input && agent_session_id.is_none() {
        None
    } else if agent_session_id.is_some() {
        agent_session_id
    } else {
        resume_session_id
    }
}

/// Chooses the agent session to resume when a prompt starts an agent.
pub fn session_to_resume(agent: AgentType, has_live_input: bool, agent_session_id: &Option<String>, resume_session_id: &Option<String>) -> (r: Option<String>)
    ensures
        opt_chars(r) == resume_choice(agent, has_live_input, opt_chars(*agent_session_id), opt_chars(*resume_session_id)),
{
    if agent == AgentType::Codex && !has_live_input && agent_session_id.is_none() {
        None
    } else {
        match agent_session_id {
            Some(s) => Some(s.clone()),
            None => match resume_session_id {
                Some(s) => Some(s.clone()),
                None => None,
            },
        }
    }
}

/// The session ids of a restored tab: the saved id is always kept for
/// resuming, and is also the live session id except for Codex.
pub open spec fn restored_ids(agent: AgentType, saved: Option<Seq<char>>) -> (Option<Seq<char>>, Option<Seq<char>>) {
    (saved, if agent != AgentType::Codex { saved } else { None })
}

/// Sets up the session ids of a restored tab: (id to resume, live id).
pub fn restored_session_ids(agent: AgentType, saved: &Option<String>) -> (r: (Option<String>, Option<String>))
    ensures
        (opt_chars(r.0), opt_chars(r.1)) == restored_ids(agent, opt_chars(*saved)),
{
    let resume = match saved {
        Some(s) => Some(s.clone()),
        None => None,
    };
    let live = if agent != AgentType::Codex {
        match saved {
            Some(s) => Some(s.clone()),
            None => None,
        }
    } else {
        None
    };
    (resume, live)
}

/// The id a tab saves for its session: the live one, else the one it would
/// resume.
pub fn saved_session_id(agent_session_id: &Option<String>, resume_session_id: &Option<String>) -> (r: Option<String>)
    ensures
        opt_chars(r) == (if agent_session_id.is_some() { opt_chars(*agent_session_id) } else { opt_chars(*resume_session_id) }),
{
    match agent_session_id {
        Some(s) => Some(s.clone()),
        None => match resume_session_id {
            Some(s) => Some(s.clone()),
            None => None,
        },
    }
}

/// A restored Codex tab without a live channel does not resume its saved
/// thread on the next prompt; any other restored tab resumes its saved
/// session; and once a Codex session reports its own id, that id is resumed.
pub proof fn lemma_restored_session_resume(agent: AgentType, saved: Seq<char>, live_id: Seq<char>)
    ensures
        ({
            let (resume, live) = restored_ids(agent, Some(saved));
            &&& (agent == AgentType::Codex ==> resume_choice(agent, false, live, resume).is_none())
            &&& (agent != AgentType::Codex ==> resume_choice(agent, false, live, resume) == Some(saved))
            &&& resume_choice(agent, true, Some(live_id), resume) == Some(live_id)
        }),
{
}

// ---------------------------------------------------------------------------
// Submitting a prompt
// ---------------------------------------------------------------------------

/// The error shown when a provider cannot take image attachments.
pub open spec fn image_error(agent: AgentType) -> Option<Seq<char>> {
    match agent {
        AgentType::Gemini => Some("Image attachments aren't supported for Gemini in Conduit yet."@),
        AgentType::DeepseekTui => Some("Image attachments aren't supported for DeepSeek TUI in Conduit yet."@),
        AgentType::Opencode => Some("Image attachments aren't supported for OpenCode in Conduit yet."@),
        AgentType::Copilot => Some("Image attachments aren't supported for GitHub Copilot in Conduit yet."@),
        AgentType::Pi => Some("Image attachments aren't supported for Pi in Conduit yet."@),
        _ => None,
    }
}

fn image_attachment_error(agent: AgentType) -> (r: Option<String>)
    ensures
        opt_chars(r) == image_error(agent),
{
    match agent {
        AgentType::Gemini => {
            let t = "Image attachments aren't supported for Gemini in Conduit yet.";
            proof { reveal_strlit("Image attachments aren't supported for Gemini in Conduit yet."); }
            Some(string_from_str(t))
        },
        AgentType::DeepseekTui => {
            let t = "Image attachments aren't supported for DeepSeek TUI in Conduit yet.";
            proof { reveal_strlit("Image attachments aren't supported for DeepSeek TUI in Conduit yet."); }
            Some(string_from_str(t))
        },
        AgentType::Opencode => {
            let t = "Image attachments aren't supported for OpenCode in Conduit yet.";
            proof { reveal_strlit("Image attachments aren't supported for OpenCode in Conduit yet."); }
            Some(string_from_str(t))
        },
        AgentType::Copilot => {
            let t = "Image attachments aren't supported for GitHub Copilot in Conduit yet.";
            proof { reveal_strlit("Image attachments aren't supported for GitHub Copilot in Conduit yet."); }
            Some(string_from_str(t))
        },
        AgentType::Pi => {
            let t = "Image attachments aren't supported for Pi in Conduit yet.";
            proof { reveal_strlit("Image attachments aren't supported for Pi in Conduit yet."); }
            Some(string_from_str(t))
        },
        _ => None,
    }
}

/// How a prompt reaches its agent.
#[derive(PartialEq, Eq, Structural, Clone, Copy, Debug)]
pub enum Delivery {
    /// Written as stream JSON to the running process of the provider that
    /// reads its prompts that way.
    StreamToLiveClaude,
    /// Sent to the running Codex, OpenCode or Pi process.
    SendToLiveAgent,
    /// A new agent process is started.
    StartAgent,
}

/// What the UI knows of a session when a prompt is submitted to it.
pub struct SubmitContext {
    pub agent: AgentType,
    pub working_dir_exists: bool,
    pub model_invalid: bool,
    pub has_model: bool,
    pub has_live_input: bool,
    pub agent_session_id: Option<String>,
    pub resume_session_id: Option<String>,
    pub has_visible_user_message: bool,
    pub has_title: bool,
    pub title_generation_pending: bool,
}

/// What becomes of a submitted prompt.
pub enum SubmitPlan {
    /// The session's working directory is gone.
    MissingWorkingDir,
    /// No usable model is selected ("Select a model to continue.").
    ModelRequired,
    /// The provider cannot take the attached images; the message says so.
    ImagesUnsupported { message: String },
    /// Nothing is left to send ("Cannot submit: prompt is empty after processing").
    EmptyPrompt,
    /// The prompt goes to the agent.
    Deliver {
        agent_prompt: String,
        delivery: Delivery,
        resume_session_id: Option<String>,
        generate_title: bool,
    },
}

/// The prompt the agent receives: every provider but Dirac gets its images
/// out of band, so their placeholders are removed from the text.
pub open spec fn agent_prompt_text(agent: AgentType, prompt: Seq<char>, placeholders: Seq<Seq<char>>) -> Seq<char> {
    if agent == AgentType::Dirac {
        prompt
    } else {
        without_placeholders(prompt, placeholders)
    }
}

/// The route of a prompt: a live process of the stream-JSON provider takes
/// the prompt as stream JSON, a live
/// Codex, OpenCode or Pi process takes the prompt, anything else starts a
/// new process.
pub open spec fn delivery_for(agent: AgentType, has_live_input: bool) -> Delivery {
    if agent == AgentType::Claude && has_live_input {
        Delivery::StreamToLiveClaude
    } else if (agent == AgentType::Codex || agent == AgentType::Opencode || agent == AgentType::Pi) && has_live_input {
        Delivery::SendToLiveAgent
    } else {
        Delivery::StartAgent
    }
}

/// Decides what becomes of a submitted prompt, checking in order: the
/// working directory, the model, image support and whether anything is left
/// to send. A title is generated for the first visible prompt of a session
/// that starts a new agent process and has no title yet.
pub fn plan_submission(ctx: &SubmitContext, prompt: String, image_count: usize, placeholders: &Vec<String>, hidden: bool, has_stdin_payload: bool) -> (p: SubmitPlan)
    ensures
        !ctx.working_dir_exists ==> p == SubmitPlan::MissingWorkingDir,
        ctx.working_dir_exists && (ctx.model_invalid || !ctx.has_model) ==> p == SubmitPlan::ModelRequired,
        ctx.working_dir_exists && !ctx.model_invalid && ctx.has_model && image_count > 0 && image_error(ctx.agent).is_some()
            ==> (p matches SubmitPlan::ImagesUnsupported { message } && Some(message@) == image_error(ctx.agent)),
        ({
            let text = agent_prompt_text(ctx.agent, prompt@, views(placeholders@));
            let passes = ctx.working_dir_exists && !ctx.model_invalid && ctx.has_model && !(image_count > 0 && image_error(ctx.agent).is_some());
            &&& (passes && !has_visible_text(text) && image_count == 0 && !has_stdin_payload ==> p == SubmitPlan::EmptyPrompt)
            &&& (passes && (has_visible_text(text) || image_count > 0 || has_stdin_payload) ==> (p matches SubmitPlan::Deliver { agent_prompt, delivery, resume_session_id, generate_title }
                && agent_prompt@ == text
                && delivery == delivery_for(ctx.agent, ctx.has_live_input)
                && opt_chars(resume_session_id) == resume_choice(ctx.agent, ctx.has_live_input, opt_chars(ctx.agent_session_id), opt_chars(ctx.resume_session_id))
                && generate_title == (delivery == Delivery::StartAgent && !hidden && !ctx.has_visible_user_message && !ctx.has_title && !ctx.title_generation_pending)))
        }),
{
    if !ctx.working_dir_exists {
        return SubmitPlan::MissingWorkingDir;
    }
    if ctx.model_invalid || !ctx.has_model {
        return SubmitPlan::ModelRequired;
    }
    if image_count > 0 {
        if let Some(message) = image_attachment_error(ctx.agent) {
            return SubmitPlan::ImagesUnsupported { message };
        }
    }
    let agent_prompt = if ctx.agent == AgentType::Dirac {
        prompt
    } else {
        strip_image_placeholders(prompt, placeholders)
    };
    if !text_has_visible(agent_prompt.as_str()) && image_count == 0 && !has_stdin_payload {
        return SubmitPlan::EmptyPrompt;
    }
    let delivery = if ctx.agent == AgentType::Claude && ctx.has_live_input {
        Delivery::StreamToLiveClaude
    } else if (ctx.agent == AgentType::Codex || ctx.agent == AgentType::Opencode || ctx.agent == AgentType::Pi) && ctx.has_live_input {
        Delivery::SendToLiveAgent
    } else {
        Delivery::StartAgent
    };
    let resume_session_id = session_to_resume(ctx.agent, ctx.has_live_input, &ctx.agent_session_id, &ctx.resume_session_id);
    let generate_title = delivery == Delivery::StartAgent && !hidden && !ctx.has_visible_user_message && !ctx.has_title && !ctx.title_generation_pending;
    SubmitPlan::Deliver { agent_prompt, delivery, resume_session_id, generate_title }
}

} // verus!

