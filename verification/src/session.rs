//! The state of one chat session that the application's handlers change:
//! its chat, its model and resume id, whether it is processing, its title
//! request and its queue; and what submitting a prompt, choosing a model and
//! draining the queue do to it.
use vstd::prelude::*;
use crate::agent::{
    agent_prompt_text, delivery_for, image_error, plan_submission, resume_choice, started, AgentType, Delivery,
    SessionActivity, SubmitContext, SubmitPlan, cross_agent_error, reject_cross_agent_switch,
};
use crate::dialogs::{model_switch_message, model_switch_text};
use crate::command::InputMode;
use crate::queue::{drain_queue, drained, QueueDelivery, QueueMode, QueuedMessage};
use crate::screen::Screen;
use crate::text::{has_visible_text, opt_chars, push_str, string_from_str, views};

verus! {

/// Who a chat line comes from.
#[derive(PartialEq, Eq, Structural, Clone, Copy, Debug)]
pub enum ChatRole {
    User,
    Assistant,
    System,
    Error,
}

/// A line of the chat.
pub struct ChatEntry {
    pub role: ChatRole,
    pub content: String,
}

pub open spec fn chat_view(c: Seq<ChatEntry>) -> Seq<(ChatRole, Seq<char>)> {
    c.map_values(|e: ChatEntry| (e.role, e.content@))
}

/// The chat has shown a message of the user.
pub open spec fn has_user_message(c: Seq<ChatEntry>) -> bool {
    exists|i: int| 0 <= i < c.len() && (#[trigger] c[i]).role == ChatRole::User
}

/// Adds a line to the chat.
pub fn push_entry(chat: &mut Vec<ChatEntry>, role: ChatRole, content: String)
    ensures
        chat_view(final(chat)@) == chat_view(old(chat)@).push((role, content@)),
{
    let ghost before = chat@;
    chat.push(ChatEntry { role, content });
    assert(chat_view(chat@) =~= chat_view(before).push((role, chat@.last().content@)));
}

/// Whether the chat has shown a message of the user.
pub fn any_user_message(chat: &Vec<ChatEntry>) -> (b: bool)
    ensures
        b == has_user_message(chat@),
{
    let mut i: usize = 0;
    while i < chat.len()
        invariant
            i <= chat.len(),
            forall|k: int| 0 <= k < i ==> (#[trigger] chat@[k]).role != ChatRole::User,
        decreases chat.len() - i,
    {
        if chat[i].role == ChatRole::User {
            return true;
        }
        i = i + 1;
    }
    false
}

/// A chat session.
pub struct ChatSession {
    pub id: u128,
    pub agent: AgentType,
    pub model: Option<String>,
    /// The selected model is no longer offered: a new one must be chosen.
    pub model_invalid: bool,
    /// The agent's own id of the running conversation.
    pub agent_session_id: Option<String>,
    /// The id of a saved conversation to continue on the next start.
    pub resume_session_id: Option<String>,
    /// A running agent process reads further prompts.
    pub has_live_input: bool,
    pub turn_count: u64,
    pub title: Option<String>,
    pub title_generation_pending: bool,
    pub is_processing: bool,
    /// The prompt shown to the user that the agent has not confirmed yet.
    pub pending_user_message: Option<String>,
    pub chat: Vec<ChatEntry>,
    pub queue: Vec<QueuedMessage>,
    /// The queued message selected in the queue editor.
    pub queue_selection: Option<usize>,
}

/// What the application does outside the session.
pub enum Effect {
    /// Start the agent process of the session with a prompt, continuing a
    /// conversation when a resume id is given.
    StartAgent { session_id: u128, agent: AgentType, prompt: String, resume_session_id: Option<String> },
    /// Hand the prompt to the session's running agent process.
    SendToLiveAgent { session_id: u128, prompt: String },
    /// Ask for a title and a branch name from the user's first message.
    GenerateTitleAndBranch { session_id: u128, user_message: String },
}

/// An effect as the contracts see it.
pub enum EffectView {
    StartAgent(u128, AgentType, Seq<char>, Option<Seq<char>>),
    SendToLiveAgent(u128, Seq<char>),
    GenerateTitleAndBranch(u128, Seq<char>),
}

pub open spec fn effect_view(e: Effect) -> EffectView {
    match e {
        Effect::StartAgent { session_id, agent, prompt, resume_session_id } => EffectView::StartAgent(
            session_id,
            agent,
            prompt@,
            opt_chars(resume_session_id),
        ),
        Effect::SendToLiveAgent { session_id, prompt } => EffectView::SendToLiveAgent(session_id, prompt@),
        Effect::GenerateTitleAndBranch { session_id, user_message } => EffectView::GenerateTitleAndBranch(
            session_id,
            user_message@,
        ),
    }
}

pub open spec fn effects_view(v: Seq<Effect>) -> Seq<EffectView> {
    v.map_values(|e: Effect| effect_view(e))
}

fn clone_opt(o: &Option<String>) -> (r: Option<String>)
    ensures
        opt_chars(r) == opt_chars(*o),
{
    match o {
        Some(s) => Some(s.clone()),
        None => None,
    }
}

/// The chat after a prompt is shown: the user's line, unless the prompt is
/// hidden.
pub open spec fn with_prompt(chat: Seq<(ChatRole, Seq<char>)>, hidden: bool, display: Seq<char>) -> Seq<(ChatRole, Seq<char>)> {
    if hidden {
        chat
    } else {
        chat.push((ChatRole::User, display))
    }
}

/// The message shown when the working directory is gone.
pub open spec fn missing_dir_text(dir: Seq<char>) -> Seq<char> {
    "Working directory does not exist: "@ + dir
}

/// The error shown when no usable model is selected.
pub open spec fn model_required_text() -> Seq<char> {
    "Select a model to continue."@
}

/// The error shown when nothing is left to send.
pub open spec fn empty_prompt_text() -> Seq<char> {
    "Cannot submit: prompt is empty after processing"@
}


/// The session has a usable model.
pub open spec fn model_ready(s: ChatSession) -> bool {
    !s.model_invalid && s.model is Some
}

/// The session's provider refuses the attached images.
pub open spec fn images_refused(s: ChatSession, image_count: usize) -> bool {
    image_count > 0 && image_error(s.agent) is Some
}

/// Something is left to send: visible text, images or a structured payload.
pub open spec fn sendable(s: ChatSession, agent_prompt: Seq<char>, placeholders: Seq<Seq<char>>, image_count: usize, has_stdin_payload: bool) -> bool {
    has_visible_text(agent_prompt_text(s.agent, agent_prompt, placeholders)) || image_count > 0 || has_stdin_payload
}

/// A title is asked for with the first visible prompt of a session that
/// starts an agent process and has neither a title nor a request for one.
pub open spec fn title_wanted(s: ChatSession, hidden: bool) -> bool {
    delivery_for(s.agent, s.has_live_input) == Delivery::StartAgent && !hidden && !has_user_message(s.chat@)
        && s.title is None && !s.title_generation_pending
}

/// The prompt awaiting confirmation after a prompt is shown.
pub open spec fn pending_after(s: ChatSession, hidden: bool, display: Seq<char>) -> Option<Seq<char>> {
    if hidden {
        opt_chars(s.pending_user_message)
    } else {
        Some(display)
    }
}

/// What submitting a prompt does to session `s`, giving `f` and `fx`. A
/// missing working directory and a missing model only add an error to the
/// chat (the model is then marked invalid); nothing starts and the resume id
/// stays. Otherwise the prompt is shown (unless hidden); refused images or
/// nothing left to send add an error and stop processing. A prompt that
/// goes out starts processing: to the running process when there is one;
/// otherwise exactly one agent start, with the resume id chosen from the
/// session, which is then forgotten, followed by one title request carrying
/// the shown prompt when a title is wanted, which is then pending.
pub open spec fn submitted(
    s: ChatSession,
    f: ChatSession,
    fx: Seq<EffectView>,
    display: Seq<char>,
    agent_prompt: Seq<char>,
    image_count: usize,
    placeholders: Seq<Seq<char>>,
    hidden: bool,
    has_stdin_payload: bool,
    working_dir: Seq<char>,
    working_dir_exists: bool,
) -> bool {
    let text = agent_prompt_text(s.agent, agent_prompt, placeholders);
    let shown = with_prompt(chat_view(s.chat@), hidden, display);
    if !working_dir_exists {
        &&& fx.len() == 0
        &&& chat_view(f.chat@) == chat_view(s.chat@).push((ChatRole::Error, missing_dir_text(working_dir)))
        &&& f == (ChatSession { chat: f.chat, ..s })
    } else if !model_ready(s) {
        &&& fx.len() == 0
        &&& chat_view(f.chat@) == chat_view(s.chat@).push((ChatRole::Error, model_required_text()))
        &&& f == (ChatSession { model_invalid: true, chat: f.chat, ..s })
    } else if images_refused(s, image_count) {
        &&& fx.len() == 0
        &&& chat_view(f.chat@) == shown.push((ChatRole::Error, image_error(s.agent).unwrap()))
        &&& f == (ChatSession { chat: f.chat, is_processing: false, pending_user_message: None, ..s })
    } else if !sendable(s, agent_prompt, placeholders, image_count, has_stdin_payload) {
        &&& fx.len() == 0
        &&& chat_view(f.chat@) == shown.push((ChatRole::Error, empty_prompt_text()))
        &&& opt_chars(f.pending_user_message) == pending_after(s, hidden, display)
        &&& f == (ChatSession { chat: f.chat, is_processing: false, pending_user_message: f.pending_user_message, ..s })
    } else if delivery_for(s.agent, s.has_live_input) == Delivery::StartAgent {
        &&& fx == seq![
            EffectView::StartAgent(
                s.id,
                s.agent,
                text,
                resume_choice(s.agent, s.has_live_input, opt_chars(s.agent_session_id), opt_chars(s.resume_session_id)),
            ),
        ] + (if title_wanted(s, hidden) {
            seq![EffectView::GenerateTitleAndBranch(s.id, display)]
        } else {
            Seq::empty()
        })
        &&& chat_view(f.chat@) == shown
        &&& opt_chars(f.pending_user_message) == pending_after(s, hidden, display)
        &&& f == (ChatSession {
            chat: f.chat,
            is_processing: true,
            pending_user_message: f.pending_user_message,
            resume_session_id: None,
            title_generation_pending: s.title_generation_pending || title_wanted(s, hidden),
            ..s
        })
    } else {
        &&& fx == seq![EffectView::SendToLiveAgent(s.id, text)]
        &&& chat_view(f.chat@) == shown
        &&& opt_chars(f.pending_user_message) == pending_after(s, hidden, display)
        &&& f == (ChatSession { chat: f.chat, is_processing: true, pending_user_message: f.pending_user_message, ..s })
    }
}

/// Submits a prompt to a session. `display_prompt` is what the user typed,
/// `agent_prompt` what the agent is to receive of it, `working_dir` the
/// session's directory and whether it exists.
pub fn submit_prompt(
    session: &mut ChatSession,
    display_prompt: String,
    agent_prompt: String,
    image_count: usize,
    placeholders: &Vec<String>,
    hidden: bool,
    has_stdin_payload: bool,
    working_dir: &str,
    working_dir_exists: bool,
) -> (effects: Vec<Effect>)
    ensures
        submitted(
            *old(session),
            *final(session),
            effects_view(effects@),
            display_prompt@,
            agent_prompt@,
            image_count,
            views(placeholders@),
            hidden,
            has_stdin_payload,
            working_dir@,
            working_dir_exists,
        ),
{
    let ghost s = *session;
    let has_visible = any_user_message(&session.chat);
    let ctx = SubmitContext {
        agent: session.agent,
        working_dir_exists,
        model_invalid: session.model_invalid,
        has_model: session.model.is_some(),
        has_live_input: session.has_live_input,
        agent_session_id: clone_opt(&session.agent_session_id),
        resume_session_id: clone_opt(&session.resume_session_id),
        has_visible_user_message: has_visible,
        has_title: session.title.is_some(),
        title_generation_pending: session.title_generation_pending,
    };
    let plan = plan_submission(&ctx, agent_prompt, image_count, placeholders, hidden, has_stdin_payload);
    let mut effects: Vec<Effect> = Vec::new();
    match plan {
        SubmitPlan::MissingWorkingDir => {
            let mut m = string_from_str("Working directory does not exist: ");
            push_str(&mut m, working_dir);
            push_entry(&mut session.chat, ChatRole::Error, m);
        },
        SubmitPlan::ModelRequired => {
            session.model_invalid = true;
            push_entry(&mut session.chat, ChatRole::Error, string_from_str("Select a model to continue."));
        },
        SubmitPlan::ImagesUnsupported { message } => {
            if !hidden {
                push_entry(&mut session.chat, ChatRole::User, display_prompt);
            }
            session.pending_user_message = None;
            session.is_processing = false;
            push_entry(&mut session.chat, ChatRole::Error, message);
        },
        SubmitPlan::EmptyPrompt => {
            if !hidden {
                push_entry(&mut session.chat, ChatRole::User, display_prompt.clone());
                session.pending_user_message = Some(display_prompt);
            }
            session.is_processing = false;
            push_entry(
                &mut session.chat,
                ChatRole::Error,
                string_from_str("Cannot submit: prompt is empty after processing"),
            );
        },
        SubmitPlan::Deliver { agent_prompt, delivery, resume_session_id, generate_title } => {
            if !hidden {
                push_entry(&mut session.chat, ChatRole::User, display_prompt.clone());
                session.pending_user_message = Some(display_prompt.clone());
            }
            session.is_processing = true;
            if delivery == Delivery::StartAgent {
                session.resume_session_id = None;
                effects.push(Effect::StartAgent { session_id: session.id, agent: session.agent, prompt: agent_prompt, resume_session_id });
                if generate_title {
                    session.title_generation_pending = true;
                    effects.push(Effect::GenerateTitleAndBranch { session_id: session.id, user_message: display_prompt });
                }
            } else {
                effects.push(Effect::SendToLiveAgent { session_id: session.id, prompt: agent_prompt });
            }
        },
    }
    proof {
        let fx = effects_view(effects@);
        let text = agent_prompt_text(s.agent, agent_prompt@, views(placeholders@));
        if working_dir_exists && model_ready(s) && !images_refused(s, image_count)
            && sendable(s, agent_prompt@, views(placeholders@), image_count, has_stdin_payload) {
            if delivery_for(s.agent, s.has_live_input) == Delivery::StartAgent {
                let start = EffectView::StartAgent(
                    s.id,
                    s.agent,
                    text,
                    resume_choice(s.agent, s.has_live_input, opt_chars(s.agent_session_id), opt_chars(s.resume_session_id)),
                );
                if title_wanted(s, hidden) {
                    assert(fx =~= seq![start] + seq![EffectView::GenerateTitleAndBranch(s.id, display_prompt@)]);
                } else {
                    assert(fx =~= seq![start] + Seq::<EffectView>::empty());
                }
            } else {
                assert(fx =~= seq![EffectView::SendToLiveAgent(s.id, text)]);
            }
        }
    }
    effects
}


/// What decides whether the session has started.
pub open spec fn activity_of(s: ChatSession) -> SessionActivity {
    SessionActivity {
        has_agent_session_id: s.agent_session_id is Some,
        has_resume_session_id: s.resume_session_id is Some,
        has_live_input: s.has_live_input,
        turn_count: s.turn_count,
    }
}

/// A started session cannot change provider.
pub open spec fn switch_refused(s: ChatSession, target: AgentType) -> bool {
    s.agent != target && started(activity_of(s))
}

/// Switches the session to a model the user chose in the model picker
/// (`agent_name` and `model_name` are the names shown for them). A started
/// session refuses another provider: the picker stays open and the chat
/// says why. Otherwise the session takes the provider and the model, the
/// chat says so, the picker closes and the keyboard returns to the chat.
pub fn switch_session_model(
    screen: &mut Screen,
    session: &mut ChatSession,
    target: AgentType,
    model_id: String,
    agent_name: &str,
    model_name: &str,
) -> (switched: bool)
    ensures
        switched == !switch_refused(*old(session), target),
        !switched ==> {
            &&& *final(screen) == *old(screen)
            &&& chat_view(final(session).chat@) == chat_view(old(session).chat@).push((ChatRole::Error, cross_agent_error()))
            &&& *final(session) == (ChatSession { chat: final(session).chat, ..*old(session) })
        },
        switched ==> {
            &&& *final(screen) == (Screen { model_picker: None, mode: InputMode::Normal, ..*old(screen) })
            &&& opt_chars(final(session).model) == Some(model_id@)
            &&& chat_view(final(session).chat@) == chat_view(old(session).chat@).push(
                (ChatRole::System, model_switch_text(old(session).agent != target, agent_name@, model_name@)),
            )
            &&& *final(session) == (ChatSession {
                agent: target,
                model: final(session).model,
                chat: final(session).chat,
                ..*old(session)
            })
        },
{
    let activity = SessionActivity {
        has_agent_session_id: session.agent_session_id.is_some(),
        has_resume_session_id: session.resume_session_id.is_some(),
        has_live_input: session.has_live_input,
        turn_count: session.turn_count,
    };
    match reject_cross_agent_switch(session.agent, target, &activity) {
        Some(message) => {
            push_entry(&mut session.chat, ChatRole::Error, message);
            false
        },
        None => {
            let agent_changed = session.agent != target;
            session.agent = target;
            session.model = Some(model_id);
            let m = model_switch_message(agent_changed, agent_name, model_name);
            push_entry(&mut session.chat, ChatRole::System, m);
            screen.model_picker = None;
            screen.mode = InputMode::Normal;
            true
        },
    }
}

/// Takes the messages that go out from the session's queue, as the queue
/// settings say, and returns them. An empty queue changes nothing;
/// otherwise the queue keeps what remains and the queue editor's selection
/// is cleared.
pub fn drain_session_queue(session: &mut ChatSession, mode: QueueMode, delivery: QueueDelivery) -> (sent: Vec<QueuedMessage>)
    ensures
        old(session).queue@.len() == 0 ==> sent@.len() == 0 && *final(session) == *old(session),
        old(session).queue@.len() > 0 ==> {
            &&& (sent@, final(session).queue@) == drained(old(session).queue@, mode, delivery)
            &&& *final(session) == (ChatSession { queue: final(session).queue, queue_selection: None, ..*old(session) })
        },
{
    if session.queue.len() == 0 {
        return Vec::new();
    }
    let mut q: Vec<QueuedMessage> = Vec::new();
    std::mem::swap(&mut q, &mut session.queue);
    let (sent, keep) = drain_queue(q, mode, delivery);
    session.queue = keep;
    session.queue_selection = None;
    sent
}

} // verus!
