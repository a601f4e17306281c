//! How a session's state follows the events its agent reports, and the
//! decisions the UI takes on background results.
use vstd::prelude::*;
use crate::pr::{extract_pr_number_from_text, pr_number_in};

verus! {

/// The events of an agent as far as the session's bookkeeping goes.
pub enum AgentEventKind {
    /// The agent reported its session id.
    SessionInit { session_id: String },
    TurnStarted,
    TurnCompleted,
    TurnFailed,
    AssistantMessage { text: String, is_final: bool },
    AssistantReasoning,
    /// A tool began; `inline_prompt` when it opened a question or plan prompt
    /// for the user (a tool that failed to open one counts as not started).
    ToolStarted { inline_prompt: bool, opened_prompt: bool },
    ToolCompleted,
    CommandOutput { output: String, is_streaming: bool },
    Error { fatal: bool, model_not_found: bool },
    /// Any other event (token usage, compaction, raw data).
    Other,
}

/// The bookkeeping of a session that agent events change.
pub struct TurnState {
    pub is_processing: bool,
    pub tools_in_flight: u32,
    pub has_live_input: bool,
    pub supports_interactive_input: bool,
    pub has_inline_prompt: bool,
    pub queued_count: usize,
    pub suppress_next_assistant_reply: bool,
    pub suppress_next_turn_summary: bool,
    pub needs_attention: bool,
    pub pr_number: Option<u32>,
    pub has_pending_user_message: bool,
    pub agent_session_id: Option<String>,
    pub has_model: bool,
    pub model_invalid: bool,
}

/// What the UI does besides updating the session.
pub struct TurnEffects {
    pub stop_footer_spinner: bool,
    pub drain_queue: bool,
    /// The event is a suppressed assistant reply and is not shown.
    pub suppressed: bool,
    /// A pull request number newly found in the agent's output.
    pub pr_found: Option<u32>,
    /// The model was rejected and the saved tab must forget it.
    pub invalidate_saved_model: bool,
}

pub open spec fn is_content(e: AgentEventKind) -> bool {
    match e {
        AgentEventKind::AssistantMessage { .. } | AgentEventKind::AssistantReasoning
        | AgentEventKind::ToolStarted { .. } | AgentEventKind::ToolCompleted
        | AgentEventKind::CommandOutput { .. } | AgentEventKind::TurnCompleted
        | AgentEventKind::TurnFailed => true,
        _ => false,
    }
}

pub open spec fn sat_dec(n: u32) -> u32 {
    if n > 0 { (n - 1) as u32 } else { 0 }
}

pub open spec fn sat_inc(n: u32) -> u32 {
    if n < u32::MAX { (n + 1) as u32 } else { u32::MAX }
}

/// The turn bookkeeping as the contracts see it.
pub struct TurnView {
    pub is_processing: bool,
    pub tools_in_flight: u32,
    pub has_live_input: bool,
    pub supports_interactive_input: bool,
    pub has_inline_prompt: bool,
    pub queued_count: usize,
    pub suppress_next_assistant_reply: bool,
    pub suppress_next_turn_summary: bool,
    pub needs_attention: bool,
    pub pr_number: Option<u32>,
    pub has_pending_user_message: bool,
    pub agent_session_id: Option<Seq<char>>,
    pub has_model: bool,
    pub model_invalid: bool,
}

impl TurnState {
    pub open spec fn view(&self) -> TurnView {
        TurnView {
            is_processing: self.is_processing,
            tools_in_flight: self.tools_in_flight,
            has_live_input: self.has_live_input,
            supports_interactive_input: self.supports_interactive_input,
            has_inline_prompt: self.has_inline_prompt,
            queued_count: self.queued_count,
            suppress_next_assistant_reply: self.suppress_next_assistant_reply,
            suppress_next_turn_summary: self.suppress_next_turn_summary,
            needs_attention: self.needs_attention,
            pr_number: self.pr_number,
            has_pending_user_message: self.has_pending_user_message,
            agent_session_id: crate::text::opt_chars(self.agent_session_id),
            has_model: self.has_model,
            model_invalid: self.model_invalid,
        }
    }
}

pub struct EffectsView {
    pub stop_footer_spinner: bool,
    pub drain_queue: bool,
    pub suppressed: bool,
    pub pr_found: Option<u32>,
    pub invalidate_saved_model: bool,
}

pub open spec fn no_effects() -> EffectsView {
    EffectsView { stop_footer_spinner: false, drain_queue: false, suppressed: false, pr_found: None, invalidate_saved_model: false }
}

/// A PR number found in output, when the session has none yet.
pub open spec fn new_pr(s: TurnView, text: Seq<char>) -> Option<u32> {
    if s.pr_number.is_none() { pr_number_in(text) } else { None }
}

/// How an event changes the session's bookkeeping. A content event on a tab
/// that is not active marks it as needing attention, unless it is an
/// assistant reply being suppressed.
pub open spec fn turn_step(s: TurnView, e: AgentEventKind, is_active_tab: bool) -> (TurnView, EffectsView) {
    event_step(marked(s, e, is_active_tab), e, is_active_tab)
}

/// The session after the attention mark of an event.
pub open spec fn marked(s: TurnView, e: AgentEventKind, is_active_tab: bool) -> TurnView {
    let suppressed_reply = (e matches AgentEventKind::AssistantMessage { .. }) && s.suppress_next_assistant_reply;
    if !is_active_tab && is_content(e) && !suppressed_reply {
        TurnView { needs_attention: true, ..s }
    } else {
        s
    }
}

/// How each event changes the session, after the attention mark.
pub open spec fn event_step(s: TurnView, e: AgentEventKind, is_active_tab: bool) -> (TurnView, EffectsView) {
    match e {
        AgentEventKind::SessionInit { session_id } => (
            TurnView { agent_session_id: Some(session_id@), has_pending_user_message: false, ..s },
            no_effects(),
        ),
        AgentEventKind::TurnStarted => (TurnView { is_processing: true, ..s }, no_effects()),
        AgentEventKind::TurnCompleted => (
            TurnView {
                is_processing: false,
                has_live_input: s.has_live_input && (s.has_inline_prompt || s.supports_interactive_input),
                suppress_next_assistant_reply: false,
                suppress_next_turn_summary: false,
                ..s
            },
            EffectsView {
                stop_footer_spinner: is_active_tab,
                drain_queue: !s.has_inline_prompt && s.queued_count > 0,
                ..no_effects()
            },
        ),
        AgentEventKind::TurnFailed => (
            TurnView {
                is_processing: false,
                tools_in_flight: 0,
                has_live_input: s.has_live_input && s.supports_interactive_input,
                suppress_next_assistant_reply: false,
                suppress_next_turn_summary: false,
                ..s
            },
            EffectsView { stop_footer_spinner: is_active_tab, ..no_effects() },
        ),
        AgentEventKind::AssistantMessage { text, is_final } => if s.suppress_next_assistant_reply {
            (
                TurnView { suppress_next_assistant_reply: !is_final, ..s },
                EffectsView { suppressed: true, ..no_effects() },
            )
        } else {
            let found = new_pr(s, text@);
            (
                TurnView { pr_number: if found.is_some() { found } else { s.pr_number }, ..s },
                EffectsView { pr_found: found, ..no_effects() },
            )
        },
        AgentEventKind::ToolStarted { inline_prompt, opened_prompt } => if inline_prompt && opened_prompt {
            (
                TurnView { has_inline_prompt: true, tools_in_flight: sat_inc(s.tools_in_flight), ..s },
                EffectsView { stop_footer_spinner: true, ..no_effects() },
            )
        } else if inline_prompt {
            (s, no_effects())
        } else {
            (TurnView { tools_in_flight: sat_inc(s.tools_in_flight), ..s }, no_effects())
        },
        AgentEventKind::ToolCompleted => (TurnView { tools_in_flight: sat_dec(s.tools_in_flight), ..s }, no_effects()),
        AgentEventKind::CommandOutput { output, is_streaming } => {
            let found = new_pr(s, output@);
            (
                TurnView {
                    pr_number: if found.is_some() { found } else { s.pr_number },
                    tools_in_flight: if is_streaming { s.tools_in_flight } else { sat_dec(s.tools_in_flight) },
                    ..s
                },
                EffectsView { pr_found: found, ..no_effects() },
            )
        },
        AgentEventKind::Error { fatal, model_not_found } => {
            let s1 = if model_not_found { TurnView { has_model: false, model_invalid: true, ..s } } else { s };
            if fatal {
                (
                    TurnView { is_processing: false, tools_in_flight: 0, has_live_input: false, ..s1 },
                    EffectsView { stop_footer_spinner: is_active_tab, invalidate_saved_model: model_not_found, ..no_effects() },
                )
            } else {
                (s1, EffectsView { invalidate_saved_model: model_not_found, ..no_effects() })
            }
        },
        _ => (s, no_effects()),
    }
}

pub open spec fn effects_view(e: TurnEffects) -> EffectsView {
    EffectsView {
        stop_footer_spinner: e.stop_footer_spinner,
        drain_queue: e.drain_queue,
        suppressed: e.suppressed,
        pr_found: e.pr_found,
        invalidate_saved_model: e.invalidate_saved_model,
    }
}

fn none_effects() -> (e: TurnEffects)
    ensures
        effects_view(e) == no_effects(),
{
    TurnEffects { stop_footer_spinner: false, drain_queue: false, suppressed: false, pr_found: None, invalidate_saved_model: false }
}

/// Applies an agent event to the session's bookkeeping.
pub fn apply_agent_event(s: &mut TurnState, e: AgentEventKind, is_active_tab: bool) -> (fx: TurnEffects)
    ensures
        (final(s).view(), effects_view(fx)) == turn_step(old(s).view(), e, is_active_tab),
{
    mark_attention(s, &e, is_active_tab);
    apply_event_core(s, e, is_active_tab)
}

fn mark_attention(s: &mut TurnState, e: &AgentEventKind, is_active_tab: bool)
    ensures
        final(s).view() == marked(old(s).view(), *e, is_active_tab),
{
    let is_content = match &e {
        AgentEventKind::AssistantMessage { .. } | AgentEventKind::AssistantReasoning
        | AgentEventKind::ToolStarted { .. } | AgentEventKind::ToolCompleted
        | AgentEventKind::CommandOutput { .. } | AgentEventKind::TurnCompleted
        | AgentEventKind::TurnFailed => true,
        _ => false,
    };
    let is_assistant = match &e {
        AgentEventKind::AssistantMessage { .. } => true,
        _ => false,
    };
    let suppressed_reply = is_assistant && s.suppress_next_assistant_reply;
    if !is_active_tab && is_content && !suppressed_reply {
        s.needs_attention = true;
    }
}

fn apply_event_core(s: &mut TurnState, e: AgentEventKind, is_active_tab: bool) -> (fx: TurnEffects)
    ensures
        (final(s).view(), effects_view(fx)) == event_step(old(s).view(), e, is_active_tab),
{
    match e {
        AgentEventKind::SessionInit { session_id } => {
            s.agent_session_id = Some(session_id);
            s.has_pending_user_message = false;
            none_effects()
        },
        AgentEventKind::TurnStarted => {
            s.is_processing = true;
            none_effects()
        },
        AgentEventKind::TurnCompleted => turn_completed(s, is_active_tab),
        AgentEventKind::TurnFailed => turn_failed(s, is_active_tab),
        AgentEventKind::AssistantMessage { text, is_final } => assistant_message(s, text, is_final, is_active_tab),
        AgentEventKind::AssistantReasoning => none_effects(),
        AgentEventKind::ToolStarted { inline_prompt, opened_prompt } => tool_started(s, inline_prompt, opened_prompt, is_active_tab),
        AgentEventKind::ToolCompleted => {
            s.tools_in_flight = s.tools_in_flight.saturating_sub(1);
            none_effects()
        },
        AgentEventKind::CommandOutput { output, is_streaming } => command_output(s, output, is_streaming, is_active_tab),
        AgentEventKind::Error { fatal, model_not_found } => agent_error(s, fatal, model_not_found, is_active_tab),
        AgentEventKind::Other => none_effects(),
    }
}

fn turn_completed(s: &mut TurnState, is_active_tab: bool) -> (fx: TurnEffects)
    ensures
        (final(s).view(), effects_view(fx)) == event_step(old(s).view(), AgentEventKind::TurnCompleted, is_active_tab),
{
    let mut fx = none_effects();
    s.is_processing = false;
    if !s.has_inline_prompt && !s.supports_interactive_input {
        s.has_live_input = false;
    }
    if !s.has_inline_prompt && s.queued_count > 0 {
        fx.drain_queue = true;
    }
    s.suppress_next_assistant_reply = false;
    s.suppress_next_turn_summary = false;
    fx.stop_footer_spinner = is_active_tab;
    fx
}

fn turn_failed(s: &mut TurnState, is_active_tab: bool) -> (fx: TurnEffects)
    ensures
        (final(s).view(), effects_view(fx)) == event_step(old(s).view(), AgentEventKind::TurnFailed, is_active_tab),
{
    let mut fx = none_effects();
    s.is_processing = false;
    s.tools_in_flight = 0;
    if !s.supports_interactive_input {
        s.has_live_input = false;
    }
    fx.stop_footer_spinner = is_active_tab;
    s.suppress_next_assistant_reply = false;
    s.suppress_next_turn_summary = false;
    fx
}

fn assistant_message(s: &mut TurnState, text: String, is_final: bool, is_active_tab: bool) -> (fx: TurnEffects)
    ensures
        (final(s).view(), effects_view(fx)) == event_step(old(s).view(), AgentEventKind::AssistantMessage { text, is_final }, is_active_tab),
{
    let mut fx = none_effects();
    if s.suppress_next_assistant_reply {
        if is_final {
            s.suppress_next_assistant_reply = false;
        }
        fx.suppressed = true;
    } else if s.pr_number.is_none() {
        let found = extract_pr_number_from_text(text.as_str());
        if found.is_some() {
            s.pr_number = found;
        }
        fx.pr_found = found;
    }
    fx
}

fn tool_started(s: &mut TurnState, inline_prompt: bool, opened_prompt: bool, is_active_tab: bool) -> (fx: TurnEffects)
    ensures
        (final(s).view(), effects_view(fx)) == event_step(old(s).view(), AgentEventKind::ToolStarted { inline_prompt, opened_prompt }, is_active_tab),
{
    let mut fx = none_effects();
    if inline_prompt && opened_prompt {
        s.has_inline_prompt = true;
        s.tools_in_flight = s.tools_in_flight.saturating_add(1);
        fx.stop_footer_spinner = true;
    } else if !inline_prompt {
        s.tools_in_flight = s.tools_in_flight.saturating_add(1);
    }
    fx
}

fn command_output(s: &mut TurnState, output: String, is_streaming: bool, is_active_tab: bool) -> (fx: TurnEffects)
    ensures
        (final(s).view(), effects_view(fx)) == event_step(old(s).view(), AgentEventKind::CommandOutput { output, is_streaming }, is_active_tab),
{
    let mut fx = none_effects();
    if s.pr_number.is_none() {
        let found = extract_pr_number_from_text(output.as_str());
        if found.is_some() {
            s.pr_number = found;
        }
        fx.pr_found = found;
    }
    if !is_streaming {
        s.tools_in_flight = s.tools_in_flight.saturating_sub(1);
    }
    fx
}

fn agent_error(s: &mut TurnState, fatal: bool, model_not_found: bool, is_active_tab: bool) -> (fx: TurnEffects)
    ensures
        (final(s).view(), effects_view(fx)) == event_step(old(s).view(), AgentEventKind::Error { fatal, model_not_found }, is_active_tab),
{
    let mut fx = none_effects();
    if model_not_found {
        s.has_model = false;
        s.model_invalid = true;
        fx.invalidate_saved_model = true;
    }
    if fatal {
        s.is_processing = false;
        s.tools_in_flight = 0;
        s.has_live_input = false;
        fx.stop_footer_spinner = is_active_tab;
    }
    fx
}

/// A completed turn keeps the agent's input channel open when the agent
/// takes interactive input or a question to the user is open, and closes it
/// otherwise; either way the session stops processing.
pub proof fn lemma_turn_completed_channel(s: TurnView, is_active_tab: bool)
    ensures
        ({
            let (t, fx) = turn_step(s, AgentEventKind::TurnCompleted, is_active_tab);
            &&& !t.is_processing
            &&& t.has_live_input == (s.has_live_input && (s.supports_interactive_input || s.has_inline_prompt))
            &&& fx.drain_queue == (!s.has_inline_prompt && s.queued_count > 0)
        }),
{
}

/// A tool that starts and then completes leaves the count of tools in
/// flight as it was (short of the counter's limit).
pub proof fn lemma_tool_start_complete_balance(s: TurnView, is_active_tab: bool)
    requires
        s.tools_in_flight < u32::MAX,
    ensures
        ({
            let (t, _) = turn_step(s, AgentEventKind::ToolStarted { inline_prompt: false, opened_prompt: false }, is_active_tab);
            let (u, _) = turn_step(t, AgentEventKind::ToolCompleted, is_active_tab);
            u.tools_in_flight == s.tools_in_flight
        }),
{
}

/// Content arriving on a tab that is not shown marks it for attention,
/// except a suppressed assistant reply; the shown tab is never marked.
pub proof fn lemma_attention_marking(s: TurnView, e: AgentEventKind, is_active_tab: bool)
    ensures
        ({
            let (t, _) = turn_step(s, e, is_active_tab);
            &&& (is_active_tab ==> t.needs_attention == s.needs_attention)
            &&& (!is_active_tab && is_content(e) && !((e matches AgentEventKind::AssistantMessage { .. }) && s.suppress_next_assistant_reply) ==> t.needs_attention)
        }),
{
}

/// What a finished tool shows in place of its running note: its result (or
/// `Completed`), or its error.
pub open spec fn tool_result_text(success: bool, result: Option<Seq<char>>, error: Option<Seq<char>>) -> Seq<char> {
    if success {
        match result {
            Some(r) => r,
            None => "Completed"@,
        }
    } else {
        "Error: "@ + match error {
            Some(e) => e,
            None => Seq::empty(),
        }
    }
}

/// Writes what a finished tool shows.
pub fn tool_completion_text(success: bool, result: Option<String>, error: Option<String>) -> (s: String)
    ensures
        s@ == tool_result_text(success, crate::text::opt_chars(result), crate::text::opt_chars(error)),
{
    if success {
        match result {
            Some(r) => r,
            None => crate::text::string_from_str("Completed"),
        }
    } else {
        let mut s = crate::text::string_from_str("Error: ");
        match error {
            Some(e) => crate::text::push_str(&mut s, e.as_str()),
            None => {},
        }
        s
    }
}

/// A tool that changes files: its lowercased name mentions editing or
/// writing.
pub open spec fn edits_files(tool: Seq<char>) -> bool {
    crate::pr::find(crate::text::lower_text(tool), "edit"@) is Some || crate::pr::find(
        crate::text::lower_text(tool),
        "write"@,
    ) is Some
}

/// Tells whether a finished tool changed files.
pub fn is_file_edit_tool(tool: &str) -> (b: bool)
    ensures
        b == edits_files(tool@),
{
    let lower = crate::text::to_lowercase(tool);
    let cs = crate::text::chars_of(lower.as_str());
    let edit = crate::text::chars_of("edit");
    let write = crate::text::chars_of("write");
    crate::pr::find_in(&cs, &edit).is_some() || crate::pr::find_in(&cs, &write).is_some()
}

// ---------------------------------------------------------------------------
// The agent process
// ---------------------------------------------------------------------------

/// The agent process exited: nothing runs or waits for input any more, and
/// the fork-seed suppression does not leak into the next run.
pub open spec fn stream_ended(s: TurnView) -> TurnView {
    TurnView {
        is_processing: false,
        tools_in_flight: 0,
        has_live_input: false,
        suppress_next_assistant_reply: false,
        suppress_next_turn_summary: false,
        ..s
    }
}

/// Handles the end of the agent's event stream. Returns whether the footer
/// spinner stops: only when the session was processing and its tab is
/// shown. The caller then drains the session's queue.
pub fn on_stream_ended(s: &mut TurnState, is_active_tab: bool) -> (stop_spinner: bool)
    ensures
        final(s).view() == stream_ended(old(s).view()),
        stop_spinner == (old(s).is_processing && is_active_tab),
{
    let was_processing = s.is_processing;
    s.is_processing = false;
    s.tools_in_flight = 0;
    s.has_live_input = false;
    s.suppress_next_assistant_reply = false;
    s.suppress_next_turn_summary = false;
    was_processing && is_active_tab
}

/// The agent could not be started: the session stops processing, forgets
/// its tools and input channel.
pub open spec fn start_failed(s: TurnView) -> TurnView {
    TurnView { is_processing: false, tools_in_flight: 0, has_live_input: false, ..s }
}

/// Handles a failed agent start. Returns whether the footer spinner stops
/// (when the tab is shown).
pub fn on_start_failed(s: &mut TurnState, is_active_tab: bool) -> (stop_spinner: bool)
    ensures
        final(s).view() == start_failed(old(s).view()),
        stop_spinner == is_active_tab,
{
    s.is_processing = false;
    s.tools_in_flight = 0;
    s.has_live_input = false;
    is_active_tab
}

/// An answer to the agent's question was delivered: one tool less is in
/// flight, and when none is left the session stops processing.
pub open spec fn question_answered(s: TurnView) -> TurnView {
    let tools = sat_dec(s.tools_in_flight);
    TurnView { tools_in_flight: tools, is_processing: if tools == 0 { false } else { s.is_processing }, ..s }
}

/// Handles the completion of a question response. Returns whether the footer
/// spinner stops: when no tool is left in flight and the tab is shown.
pub fn on_question_answered(s: &mut TurnState, is_active_tab: bool) -> (stop_spinner: bool)
    ensures
        final(s).view() == question_answered(old(s).view()),
        stop_spinner == (sat_dec(old(s).tools_in_flight) == 0 && is_active_tab),
{
    s.tools_in_flight = if s.tools_in_flight > 0 { s.tools_in_flight - 1 } else { 0 };
    if s.tools_in_flight == 0 {
        s.is_processing = false;
        is_active_tab
    } else {
        false
    }
}

/// An answer to the agent's question is being sent: the session processes
/// with one more tool in flight; without a live input channel the answer
/// cannot go out and the session stops processing again.
pub open spec fn question_sent(s: TurnView) -> TurnView {
    if s.has_live_input {
        TurnView { is_processing: true, tools_in_flight: sat_inc(s.tools_in_flight), ..s }
    } else {
        TurnView { is_processing: false, tools_in_flight: sat_dec(sat_inc(s.tools_in_flight)), ..s }
    }
}

/// Starts sending an answer to the agent's question. Returns whether it can
/// go out (the footer spinner then runs); otherwise the spinner stops and
/// the session shows that it was not ready.
pub fn on_question_sent(s: &mut TurnState) -> (sent: bool)
    ensures
        final(s).view() == question_sent(old(s).view()),
        sent == old(s).has_live_input,
{
    s.is_processing = true;
    s.tools_in_flight = if s.tools_in_flight < u32::MAX { s.tools_in_flight + 1 } else { u32::MAX };
    if !s.has_live_input {
        s.tools_in_flight = if s.tools_in_flight > 0 { s.tools_in_flight - 1 } else { 0 };
        s.is_processing = false;
        return false;
    }
    true
}

/// Sending an answer and its completion leave the count of tools in flight
/// as it was, and with no other tool running the session stops processing.
pub proof fn lemma_question_round_trip(s: TurnView)
    requires
        s.has_live_input,
        s.tools_in_flight < u32::MAX,
    ensures
        question_answered(question_sent(s)).tools_in_flight == s.tools_in_flight,
        s.tools_in_flight == 0 ==> !question_answered(question_sent(s)).is_processing,
{
}

/// The user interrupted the agent: its input channel and any open question
/// are gone and the session stops processing.
pub open spec fn interrupted(s: TurnView) -> TurnView {
    TurnView { is_processing: false, has_live_input: false, has_inline_prompt: false, ..s }
}

/// Applies an interrupt to the session. Returns whether it was processing;
/// only then is `Interrupted` shown in the chat.
pub fn on_interrupt(s: &mut TurnState) -> (was_processing: bool)
    ensures
        final(s).view() == interrupted(old(s).view()),
        was_processing == old(s).is_processing,
{
    let was = s.is_processing;
    s.is_processing = false;
    s.has_live_input = false;
    s.has_inline_prompt = false;
    was
}

/// However a run ends (the stream closes or the start fails), the session is
/// left idle with no tool in flight and no live input.
pub proof fn lemma_process_end_leaves_session_idle(s: TurnView)
    ensures
        !stream_ended(s).is_processing && stream_ended(s).tools_in_flight == 0 && !stream_ended(s).has_live_input,
        !start_failed(s).is_processing && start_failed(s).tools_in_flight == 0 && !start_failed(s).has_live_input,
        !stream_ended(s).suppress_next_assistant_reply && !stream_ended(s).suppress_next_turn_summary,
{
}

// ---------------------------------------------------------------------------
// Background results
// ---------------------------------------------------------------------------

/// How alarming a confirmation dialog is.
#[derive(PartialEq, Eq, Structural, Clone, Copy, Debug)]
pub enum ConfirmationType {
    Info,
    Warning,
    Danger,
}

/// The severity of removing a project: danger with both uncommitted and
/// unmerged work, a warning with either or with any workspace, else info.
pub open spec fn removal_severity(has_dirty: bool, has_unmerged: bool, workspace_count: usize) -> ConfirmationType {
    if has_dirty && has_unmerged {
        ConfirmationType::Danger
    } else if has_dirty || has_unmerged || workspace_count > 0 {
        ConfirmationType::Warning
    } else {
        ConfirmationType::Info
    }
}

/// Decides the severity of the project-removal dialog.
pub fn removal_confirmation_type(has_dirty: bool, has_unmerged: bool, workspace_count: usize) -> (t: ConfirmationType)
    ensures
        t == removal_severity(has_dirty, has_unmerged, workspace_count),
{
    match (has_dirty, has_unmerged) {
        (true, true) => ConfirmationType::Danger,
        (true, false) | (false, true) => ConfirmationType::Warning,
        (false, false) => if workspace_count > 0 {
            ConfirmationType::Warning
        } else {
            ConfirmationType::Info
        },
    }
}

/// A setting with a workspace override, a repository override and a global
/// default: the most specific one that is set wins.
pub fn layered_setting<T>(workspace: Option<T>, repository: Option<T>, global: T) -> (r: T)
    ensures
        r == (match workspace {
            Some(w) => w,
            None => match repository {
                Some(p) => p,
                None => global,
            },
        }),
{
    match workspace {
        Some(w) => w,
        None => match repository {
            Some(p) => p,
            None => global,
        },
    }
}


/// How a turn runs, whatever the session looked like before: a started turn
/// processes; a completed, a failed, and a fatally broken turn stop
/// processing, and stop the footer spinner exactly on the active tab; a
/// failed or fatally broken turn leaves no tool running, and a fatal error
/// also drops the live input; a completed turn drains the queue exactly
/// when messages wait and no question is open. The session's agent id is
/// the one an init reports, and its pending prompt is then confirmed.
pub proof fn lemma_turn_lifecycle(s: TurnView, active: bool, model_not_found: bool, id: String)
    ensures
        turn_step(s, AgentEventKind::TurnStarted, active).0.is_processing,
        !turn_step(s, AgentEventKind::TurnCompleted, active).0.is_processing,
        turn_step(s, AgentEventKind::TurnCompleted, active).1.stop_footer_spinner == active,
        turn_step(s, AgentEventKind::TurnCompleted, active).1.drain_queue == (!s.has_inline_prompt && s.queued_count > 0),
        !turn_step(s, AgentEventKind::TurnFailed, active).0.is_processing,
        turn_step(s, AgentEventKind::TurnFailed, active).0.tools_in_flight == 0,
        turn_step(s, AgentEventKind::TurnFailed, active).1.stop_footer_spinner == active,
        !turn_step(s, AgentEventKind::TurnFailed, active).1.drain_queue,
        !turn_step(s, AgentEventKind::Error { fatal: true, model_not_found }, active).0.is_processing,
        turn_step(s, AgentEventKind::Error { fatal: true, model_not_found }, active).0.tools_in_flight == 0,
        !turn_step(s, AgentEventKind::Error { fatal: true, model_not_found }, active).0.has_live_input,
        turn_step(s, AgentEventKind::Error { fatal: true, model_not_found }, active).1.stop_footer_spinner == active,
        turn_step(s, AgentEventKind::SessionInit { session_id: id }, active).0.agent_session_id == Some(id@),
        !turn_step(s, AgentEventKind::SessionInit { session_id: id }, active).0.has_pending_user_message,
{
}

/// Tools in flight are counted: a started tool (one that opens no prompt)
/// adds one and a finished tool takes one away, never going below zero.
pub proof fn lemma_tools_counted(s: TurnView, active: bool)
    ensures
        s.tools_in_flight < u32::MAX ==> turn_step(s, AgentEventKind::ToolStarted { inline_prompt: false, opened_prompt: false }, active).0.tools_in_flight == s.tools_in_flight + 1,
        s.tools_in_flight > 0 ==> turn_step(s, AgentEventKind::ToolCompleted, active).0.tools_in_flight == s.tools_in_flight - 1,
        s.tools_in_flight == 0 ==> turn_step(s, AgentEventKind::ToolCompleted, active).0.tools_in_flight == 0,
{
}

/// Attention: content arriving on a tab that is not active marks it as
/// needing attention (unless it is an assistant reply being suppressed);
/// on the active tab no event changes the mark.
pub proof fn lemma_attention(s: TurnView, e: AgentEventKind, active: bool)
    ensures
        active ==> turn_step(s, e, active).0.needs_attention == s.needs_attention,
        !active && is_content(e) && !((e matches AgentEventKind::AssistantMessage { .. }) && s.suppress_next_assistant_reply)
            ==> turn_step(s, e, active).0.needs_attention,
{
}


/// Assistant text: a reply being suppressed is dropped (the suppression
/// ends with its final part) and finds nothing; otherwise the first pull
/// request linked in the text is taken when the session has none, and an
/// existing number is never replaced.
pub proof fn lemma_assistant_text(s: TurnView, text: String, is_final: bool, active: bool)
    ensures
        s.suppress_next_assistant_reply ==> {
            let r = turn_step(s, AgentEventKind::AssistantMessage { text, is_final }, active);
            &&& r.1.suppressed
            &&& r.1.pr_found is None
            &&& r.0.suppress_next_assistant_reply == !is_final
            &&& r.0.pr_number == s.pr_number
        },
        !s.suppress_next_assistant_reply ==> {
            let r = turn_step(s, AgentEventKind::AssistantMessage { text, is_final }, active);
            &&& !r.1.suppressed
            &&& (s.pr_number is Some ==> r.0.pr_number == s.pr_number && r.1.pr_found is None)
            &&& (s.pr_number is None ==> r.0.pr_number == crate::pr::pr_number_in(text@) && r.1.pr_found == crate::pr::pr_number_in(text@))
        },
{
}

} // verus!
