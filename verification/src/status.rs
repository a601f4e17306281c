//! The footer line and what drives it: busy markers for repositories and
//! workspaces while background work runs, and the double-press handling of
//! Ctrl+C and Esc.
use vstd::prelude::*;
use std::collections::{HashMap, HashSet};
use crate::text::{
    decimal, has_visible_text, push_i64_decimal, push_str, push_u64_decimal, signed_decimal,
    string_from_str, text_equals, text_has_visible,
};

verus! {

broadcast use vstd::std_specs::hash::group_hash_axioms;

/// The footer text shown while a project is being removed.
pub open spec fn removing_text() -> Seq<char> {
    "Removing project..."@
}

/// The footer text shown while a workspace is being created.
pub open spec fn creating_text() -> Seq<char> {
    "Creating workspace..."@
}

/// The footer text shown while other work runs on a workspace.
pub open spec fn working_text() -> Seq<char> {
    "Working on workspace..."@
}

/// The busy message for the current markers: project removal first, then
/// workspace creation, then other workspace work.
pub open spec fn busy_text(repos: Set<u128>, actions: Set<u128>, workspaces: Set<u128>) -> Option<
    Seq<char>,
> {
    if !repos.is_empty() {
        Some(removing_text())
    } else if !actions.is_empty() {
        Some(creating_text())
    } else if !workspaces.is_empty() {
        Some(working_text())
    } else {
        None
    }
}

/// The footer as the contracts see it.
pub struct FooterView {
    pub message: Option<Seq<char>>,
    pub expires_at: Option<u64>,
    pub busy_message: Option<Seq<char>>,
    pub busy_active: bool,
}

/// The footer after it is brought in line with the desired busy message.
/// A busy message never replaces a message that was already showing (a
/// timed one, or one that is not the busy message); it is only recorded, and
/// when the work ends it is removed only if it is still what shows.
pub open spec fn synced_footer(f: FooterView, desired: Option<Seq<char>>) -> FooterView {
    match desired {
        None => if f.busy_active {
            FooterView {
                message: if f.message == f.busy_message { None } else { f.message },
                expires_at: if f.message == f.busy_message { None } else { f.expires_at },
                busy_message: None,
                busy_active: false,
            }
        } else {
            f
        },
        Some(d) => if f.expires_at.is_some() || (f.message.is_some() && !f.busy_active) {
            FooterView { busy_message: Some(d), busy_active: true, ..f }
        } else {
            FooterView { message: Some(d), expires_at: None, busy_message: Some(d), busy_active: true }
        },
    }
}

/// How long a second press of Ctrl+C or Esc still counts as a double press.
pub open spec fn double_press_timeout_ms() -> u64 {
    500
}

/// Whether a press at `now` follows the last one closely enough to count as
/// its second press (time running backwards counts as no time passing).
pub open spec fn is_double_press(last: Option<u64>, now: u64) -> bool {
    match last {
        Some(t) => (if now >= t { now - t } else { 0 }) < double_press_timeout_ms(),
        None => false,
    }
}

/// Whether the last press is older than the double-press window.
pub open spec fn press_expired(last: Option<u64>, now: u64) -> bool {
    match last {
        Some(t) => (if now >= t { now - t } else { 0 }) > double_press_timeout_ms(),
        None => false,
    }
}

pub open spec fn ctrl_c_quit_warning() -> Seq<char> {
    "Press Ctrl+C again to quit"@
}

pub open spec fn ctrl_c_interrupt_warning() -> Seq<char> {
    "Press Ctrl+C again to interrupt and quit"@
}

pub open spec fn esc_interrupt_warning() -> Seq<char> {
    "Press Esc again to interrupt"@
}

pub open spec fn esc_clear_warning() -> Seq<char> {
    "Press Esc again to clear"@
}

/// What a press of Ctrl+C asks of the application besides the footer.
pub enum CtrlCOutcome {
    /// Interrupt the running agent, quit and save the session state.
    InterruptAndQuit,
    /// Quit and save the session state.
    Quit,
    /// A warning was shown; wait for the second press.
    WarnInterrupt,
    /// Clear the input, after adding it to the history when it holds text.
    ClearInput { save_to_history: bool },
}

/// What a press of Esc asks of the application besides the footer.
pub enum EscOutcome {
    /// Interrupt the running agent.
    Interrupt,
    /// Clear the input.
    ClearInput,
    /// A warning was shown; wait for the second press.
    Warn,
}

/// The double-press state as the contracts see it.
pub struct PressView {
    pub last_ctrl_c: Option<u64>,
    pub last_esc: Option<u64>,
    pub message: Option<Seq<char>>,
    pub should_quit: bool,
}

/// Ctrl+C: while an agent runs, the first press warns and the second
/// interrupts and quits; while idle, the first press clears the input and
/// warns and the second quits.
pub open spec fn ctrl_c_step(p: PressView, now: u64, processing: bool, input: Seq<char>) -> (
    PressView,
    CtrlCOutcome,
) {
    let double = is_double_press(p.last_ctrl_c, now);
    if processing {
        if double {
            (PressView { should_quit: true, ..p }, CtrlCOutcome::InterruptAndQuit)
        } else {
            (
                PressView {
                    message: Some(ctrl_c_interrupt_warning()),
                    last_ctrl_c: Some(now),
                    ..p
                },
                CtrlCOutcome::WarnInterrupt,
            )
        }
    } else if double {
        (PressView { should_quit: true, ..p }, CtrlCOutcome::Quit)
    } else {
        (
            PressView { message: Some(ctrl_c_quit_warning()), last_ctrl_c: Some(now), ..p },
            CtrlCOutcome::ClearInput { save_to_history: has_visible_text(input) },
        )
    }
}

/// Esc (with no dialog open): while an agent runs, the second press
/// interrupts; while idle, the second press clears the input. A first press
/// only warns.
pub open spec fn esc_step(p: PressView, now: u64, processing: bool) -> (PressView, EscOutcome) {
    let double = is_double_press(p.last_esc, now);
    if double {
        (
            PressView { message: None, last_esc: None, ..p },
            if processing {
                EscOutcome::Interrupt
            } else {
                EscOutcome::ClearInput
            },
        )
    } else {
        (
            PressView {
                message: Some(
                    if processing {
                        esc_interrupt_warning()
                    } else {
                        esc_clear_warning()
                    },
                ),
                last_esc: Some(now),
                ..p
            },
            EscOutcome::Warn,
        )
    }
}

/// The periodic clean-up: a press older than the window is forgotten, and
/// its warning leaves the footer if it is still showing.
pub open spec fn expire_step(p: PressView, now: u64) -> PressView {
    let c_expired = press_expired(p.last_ctrl_c, now);
    let e_expired = press_expired(p.last_esc, now);
    let m1 = if c_expired && (p.message == Some(ctrl_c_interrupt_warning()) || p.message == Some(
        ctrl_c_quit_warning(),
    )) {
        None
    } else {
        p.message
    };
    let m2 = if e_expired && (m1 == Some(esc_interrupt_warning()) || m1 == Some(
        esc_clear_warning(),
    )) {
        None
    } else {
        m1
    };
    PressView {
        last_ctrl_c: if c_expired { None } else { p.last_ctrl_c },
        last_esc: if e_expired { None } else { p.last_esc },
        message: m2,
        should_quit: p.should_quit,
    }
}

pub open spec fn opt_text(o: Option<String>) -> Option<Seq<char>> {
    match o {
        Some(s) => Some(s@),
        None => None,
    }
}

/// Busy markers, double-press state and the footer they drive.
pub struct StatusState {
    pub busy_repos: HashSet<u128>,
    pub busy_repo_actions: HashSet<u128>,
    pub busy_workspaces: HashSet<u128>,
    /// Branch names learned while a workspace was busy, applied once it is not.
    pub pending_branch_updates: HashMap<u128, Option<String>>,
    pub footer_message: Option<String>,
    /// When the footer message expires, in milliseconds of the UI clock.
    pub footer_expires_at: Option<u64>,
    pub busy_footer_message: Option<String>,
    pub busy_footer_message_active: bool,
    /// When Ctrl+C was last pressed, in milliseconds of the UI clock.
    pub last_ctrl_c_press: Option<u64>,
    /// When Esc was last pressed, in milliseconds of the UI clock.
    pub last_esc_press: Option<u64>,
    pub should_quit: bool,
}

impl StatusState {
    pub open spec fn footer(&self) -> FooterView {
        FooterView {
            message: opt_text(self.footer_message),
            expires_at: self.footer_expires_at,
            busy_message: opt_text(self.busy_footer_message),
            busy_active: self.busy_footer_message_active,
        }
    }

    pub open spec fn presses(&self) -> PressView {
        PressView {
            last_ctrl_c: self.last_ctrl_c_press,
            last_esc: self.last_esc_press,
            message: opt_text(self.footer_message),
            should_quit: self.should_quit,
        }
    }

    /// Everything but the double-press state and the footer message is left
    /// as it was.
    pub open spec fn same_besides_presses(&self, other: &Self) -> bool {
        &&& self.busy_repos@ == other.busy_repos@
        &&& self.busy_repo_actions@ == other.busy_repo_actions@
        &&& self.busy_workspaces@ == other.busy_workspaces@
        &&& self.pending_branch_updates@ == other.pending_branch_updates@
        &&& self.footer_expires_at == other.footer_expires_at
        &&& opt_text(self.busy_footer_message) == opt_text(other.busy_footer_message)
        &&& self.busy_footer_message_active == other.busy_footer_message_active
    }

    pub open spec fn desired(&self) -> Option<Seq<char>> {
        busy_text(self.busy_repos@, self.busy_repo_actions@, self.busy_workspaces@)
    }

    /// No markers and an empty footer.
    pub fn new() -> (s: Self)
        ensures
            s.busy_repos@ == Set::<u128>::empty(),
            s.busy_repo_actions@ == Set::<u128>::empty(),
            s.busy_workspaces@ == Set::<u128>::empty(),
            s.pending_branch_updates@ == Map::<u128, Option<String>>::empty(),
            s.last_ctrl_c_press.is_none(),
            s.last_esc_press.is_none(),
            !s.should_quit,
            s.footer() == (FooterView {
                message: None,
                expires_at: None,
                busy_message: None,
                busy_active: false,
            }),
    {
        StatusState {
            busy_repos: HashSet::new(),
            busy_repo_actions: HashSet::new(),
            busy_workspaces: HashSet::new(),
            pending_branch_updates: HashMap::new(),
            footer_message: None,
            footer_expires_at: None,
            busy_footer_message: None,
            busy_footer_message_active: false,
            last_ctrl_c_press: None,
            last_esc_press: None,
            should_quit: false,
        }
    }

    /// The busy message for the current markers.
    pub fn busy_footer_message(&self) -> (m: Option<String>)
        ensures
            opt_text(m) == self.desired(),
    {
        if !self.busy_repos.is_empty() {
            let t = "Removing project...";
            proof {
                reveal_strlit("Removing project...");
            }
            return Some(string_from_str(t));
        }
        if !self.busy_repo_actions.is_empty() {
            let t = "Creating workspace...";
            proof {
                reveal_strlit("Creating workspace...");
            }
            return Some(string_from_str(t));
        }
        if !self.busy_workspaces.is_empty() {
            let t = "Working on workspace...";
            proof {
                reveal_strlit("Working on workspace...");
            }
            return Some(string_from_str(t));
        }
        None
    }

    /// Handles a press of Ctrl+C at `now`; `input` is the active input text.
    pub fn handle_ctrl_c_press(&mut self, now: u64, is_processing: bool, input: &str) -> (o:
        CtrlCOutcome)
        ensures
            (final(self).presses(), o) == ctrl_c_step(old(self).presses(), now, is_processing, input@),
            final(self).same_besides_presses(old(self)),
    {
        let is_double = match self.last_ctrl_c_press {
            Some(t) => {
                let elapsed: u64 = if now >= t { now - t } else { 0 };
                elapsed < 500
            },
            None => false,
        };
        if is_processing {
            if is_double {
                self.should_quit = true;
                CtrlCOutcome::InterruptAndQuit
            } else {
                let t = "Press Ctrl+C again to interrupt and quit";
                proof {
                    reveal_strlit("Press Ctrl+C again to interrupt and quit");
                }
                self.footer_message = Some(string_from_str(t));
                self.last_ctrl_c_press = Some(now);
                CtrlCOutcome::WarnInterrupt
            }
        } else if is_double {
            self.should_quit = true;
            CtrlCOutcome::Quit
        } else {
            let save = text_has_visible(input);
            let t = "Press Ctrl+C again to quit";
            proof {
                reveal_strlit("Press Ctrl+C again to quit");
            }
            self.footer_message = Some(string_from_str(t));
            self.last_ctrl_c_press = Some(now);
            CtrlCOutcome::ClearInput { save_to_history: save }
        }
    }

    /// Handles a press of Esc at `now`, when no dialog is open.
    pub fn handle_esc_press(&mut self, now: u64, is_processing: bool) -> (o: EscOutcome)
        ensures
            (final(self).presses(), o) == esc_step(old(self).presses(), now, is_processing),
            final(self).same_besides_presses(old(self)),
    {
        let is_double = match self.last_esc_press {
            Some(t) => {
                let elapsed: u64 = if now >= t { now - t } else { 0 };
                elapsed < 500
            },
            None => false,
        };
        if is_double {
            self.footer_message = None;
            self.last_esc_press = None;
            if is_processing {
                EscOutcome::Interrupt
            } else {
                EscOutcome::ClearInput
            }
        } else {
            if is_processing {
                let t = "Press Esc again to interrupt";
                proof {
                    reveal_strlit("Press Esc again to interrupt");
                }
                self.footer_message = Some(string_from_str(t));
            } else {
                let t = "Press Esc again to clear";
                proof {
                    reveal_strlit("Press Esc again to clear");
                }
                self.footer_message = Some(string_from_str(t));
            }
            self.last_esc_press = Some(now);
            EscOutcome::Warn
        }
    }

    /// Forgets presses older than the double-press window at `now` and removes
    /// their warnings from the footer. Returns whether the footer changed.
    pub fn expire_double_presses(&mut self, now: u64) -> (changed: bool)
        ensures
            final(self).presses() == expire_step(old(self).presses(), now),
            final(self).same_besides_presses(old(self)),
            changed == (final(self).presses().message != old(self).presses().message),
    {
        let mut changed = false;
        let c1 = "Press Ctrl+C again to interrupt and quit";
        let c2 = "Press Ctrl+C again to quit";
        let e1 = "Press Esc again to interrupt";
        let e2 = "Press Esc again to clear";
        proof {
            reveal_strlit("Press Ctrl+C again to interrupt and quit");
            reveal_strlit("Press Ctrl+C again to quit");
            reveal_strlit("Press Esc again to interrupt");
            reveal_strlit("Press Esc again to clear");
        }
        if let Some(t) = self.last_ctrl_c_press {
            let elapsed: u64 = if now >= t { now - t } else { 0 };
            if elapsed > 500 {
                self.last_ctrl_c_press = None;
                let shows = match &self.footer_message {
                    Some(m) => text_equals(m.as_str(), c1) || text_equals(m.as_str(), c2),
                    None => false,
                };
                if shows {
                    self.footer_message = None;
                    changed = true;
                }
            }
        }
        if let Some(t) = self.last_esc_press {
            let elapsed: u64 = if now >= t { now - t } else { 0 };
            if elapsed > 500 {
                self.last_esc_press = None;
                let shows = match &self.footer_message {
                    Some(m) => text_equals(m.as_str(), e1) || text_equals(m.as_str(), e2),
                    None => false,
                };
                if shows {
                    self.footer_message = None;
                    changed = true;
                }
            }
        }
        changed
    }

    /// Brings the footer in line with the busy markers.
    pub fn sync_busy_footer_message(&mut self)
        ensures
            final(self).footer() == synced_footer(old(self).footer(), old(self).desired()),
            final(self).busy_repos@ == old(self).busy_repos@,
            final(self).busy_repo_actions@ == old(self).busy_repo_actions@,
            final(self).busy_workspaces@ == old(self).busy_workspaces@,
            final(self).pending_branch_updates@ == old(self).pending_branch_updates@,
    {
        let desired = self.busy_footer_message();
        match desired {
            None => {
                if self.busy_footer_message_active {
                    let same = match (&self.footer_message, &self.busy_footer_message) {
                        (Some(a), Some(b)) => text_equals(a.as_str(), b.as_str()),
                        (None, None) => true,
                        _ => false,
                    };
                    if same {
                        self.footer_message = None;
                        self.footer_expires_at = None;
                    }
                    self.busy_footer_message_active = false;
                    self.busy_footer_message = None;
                }
            },
            Some(d) => {
                if self.footer_expires_at.is_some() || (self.footer_message.is_some()
                    && !self.busy_footer_message_active) {
                    self.busy_footer_message = Some(d);
                    self.busy_footer_message_active = true;
                } else {
                    let shown = d.clone();
                    self.footer_message = Some(shown);
                    self.footer_expires_at = None;
                    self.busy_footer_message = Some(d);
                    self.busy_footer_message_active = true;
                }
            },
        }
    }

    /// Marks a workspace busy. Returns whether it was not busy before; only
    /// then does the footer change.
    pub fn mark_workspace_busy(&mut self, id: u128) -> (changed: bool)
        ensures
            changed == !old(self).busy_workspaces@.contains(id),
            final(self).busy_workspaces@ == old(self).busy_workspaces@.insert(id),
            final(self).busy_repos@ == old(self).busy_repos@,
            final(self).busy_repo_actions@ == old(self).busy_repo_actions@,
            final(self).pending_branch_updates@ == old(self).pending_branch_updates@,
            final(self).footer() == if changed {
                synced_footer(old(self).footer(), final(self).desired())
            } else {
                old(self).footer()
            },
    {
        let changed = self.busy_workspaces.insert(id);
        if changed {
            self.sync_busy_footer_message();
        }
        changed
    }

    /// Clears a workspace's busy marker. Returns the branch update that waited
    /// for it, if any; the footer changes only if the workspace was busy.
    pub fn clear_workspace_busy(&mut self, id: u128) -> (r: (bool, Option<Option<String>>))
        ensures
            r.0 == old(self).busy_workspaces@.contains(id),
            final(self).busy_workspaces@ == old(self).busy_workspaces@.remove(id),
            final(self).busy_repos@ == old(self).busy_repos@,
            final(self).busy_repo_actions@ == old(self).busy_repo_actions@,
            final(self).footer() == if r.0 {
                synced_footer(old(self).footer(), final(self).desired())
            } else {
                old(self).footer()
            },
            r.0 ==> final(self).pending_branch_updates@ == old(self).pending_branch_updates@.remove(id),
            r.0 ==> r.1 == released_branch(old(self).pending_branch_updates@, id),
            !r.0 ==> final(self).pending_branch_updates@ == old(self).pending_branch_updates@,
            !r.0 ==> r.1.is_none(),
    {
        let changed = self.busy_workspaces.remove(&id);
        if changed {
            self.sync_busy_footer_message();
            let branch = self.pending_branch_updates.remove(&id);
            (true, branch)
        } else {
            (false, None)
        }
    }

    /// A branch change reported for a workspace. While the workspace is busy
    /// the change waits (a later change replaces an earlier one) and nothing
    /// is applied now; otherwise the branch is handed back to be applied.
    pub fn note_branch_change(&mut self, id: u128, branch: Option<String>) -> (apply: Option<
        Option<String>,
    >)
        ensures
            (final(self).pending_branch_updates@, apply) == branch_change(
                old(self).busy_workspaces@,
                old(self).pending_branch_updates@,
                id,
                branch,
            ),
            final(self).busy_workspaces@ == old(self).busy_workspaces@,
            final(self).busy_repos@ == old(self).busy_repos@,
            final(self).busy_repo_actions@ == old(self).busy_repo_actions@,
            final(self).footer() == old(self).footer(),
            final(self).presses() == old(self).presses(),
    {
        if self.busy_workspaces.contains(&id) {
            self.pending_branch_updates.insert(id, branch);
            None
        } else {
            Some(branch)
        }
    }

    /// Marks a repository as being removed.
    pub fn mark_repo_busy(&mut self, id: u128) -> (changed: bool)
        ensures
            changed == !old(self).busy_repos@.contains(id),
            final(self).busy_repos@ == old(self).busy_repos@.insert(id),
            final(self).busy_workspaces@ == old(self).busy_workspaces@,
            final(self).busy_repo_actions@ == old(self).busy_repo_actions@,
            final(self).pending_branch_updates@ == old(self).pending_branch_updates@,
            final(self).footer() == if changed {
                synced_footer(old(self).footer(), final(self).desired())
            } else {
                old(self).footer()
            },
    {
        let changed = self.busy_repos.insert(id);
        if changed {
            self.sync_busy_footer_message();
        }
        changed
    }

    /// Clears a repository's removal marker.
    pub fn clear_repo_busy(&mut self, id: u128) -> (changed: bool)
        ensures
            changed == old(self).busy_repos@.contains(id),
            final(self).busy_repos@ == old(self).busy_repos@.remove(id),
            final(self).busy_workspaces@ == old(self).busy_workspaces@,
            final(self).busy_repo_actions@ == old(self).busy_repo_actions@,
            final(self).pending_branch_updates@ == old(self).pending_branch_updates@,
            final(self).footer() == if changed {
                synced_footer(old(self).footer(), final(self).desired())
            } else {
                old(self).footer()
            },
    {
        let changed = self.busy_repos.remove(&id);
        if changed {
            self.sync_busy_footer_message();
        }
        changed
    }

    /// Marks a repository as creating a workspace.
    pub fn mark_repo_action_busy(&mut self, id: u128) -> (changed: bool)
        ensures
            changed == !old(self).busy_repo_actions@.contains(id),
            final(self).busy_repo_actions@ == old(self).busy_repo_actions@.insert(id),
            final(self).busy_workspaces@ == old(self).busy_workspaces@,
            final(self).busy_repos@ == old(self).busy_repos@,
            final(self).pending_branch_updates@ == old(self).pending_branch_updates@,
            final(self).footer() == if changed {
                synced_footer(old(self).footer(), final(self).desired())
            } else {
                old(self).footer()
            },
    {
        let changed = self.busy_repo_actions.insert(id);
        if changed {
            self.sync_busy_footer_message();
        }
        changed
    }

    /// Clears a repository's workspace-creation marker.
    pub fn clear_repo_action_busy(&mut self, id: u128) -> (changed: bool)
        ensures
            changed == old(self).busy_repo_actions@.contains(id),
            final(self).busy_repo_actions@ == old(self).busy_repo_actions@.remove(id),
            final(self).busy_workspaces@ == old(self).busy_workspaces@,
            final(self).busy_repos@ == old(self).busy_repos@,
            final(self).pending_branch_updates@ == old(self).pending_branch_updates@,
            final(self).footer() == if changed {
                synced_footer(old(self).footer(), final(self).desired())
            } else {
                old(self).footer()
            },
    {
        let changed = self.busy_repo_actions.remove(&id);
        if changed {
            self.sync_busy_footer_message();
        }
        changed
    }
}


/// A branch change for workspace `id`: held in the pending updates while
/// the workspace is busy, otherwise returned for applying at once.
pub open spec fn branch_change(
    busy: Set<u128>,
    pending: Map<u128, Option<String>>,
    id: u128,
    branch: Option<String>,
) -> (Map<u128, Option<String>>, Option<Option<String>>) {
    if busy.contains(id) {
        (pending.insert(id, branch), None)
    } else {
        (pending, Some(branch))
    }
}

/// What clearing a workspace's busy marker hands back: the branch update
/// that waited for it, if any.
pub open spec fn released_branch(pending: Map<u128, Option<String>>, id: u128) -> Option<
    Option<String>,
> {
    if pending.contains_key(id) {
        Some(pending[id])
    } else {
        None
    }
}

/// A branch change is never lost: while the workspace is busy it waits,
/// and the last change reported before the workspace is free again is the
/// one handed back when its busy marker clears; when the workspace is not
/// busy the change applies at once.
pub proof fn lemma_branch_change_survives_busy(
    busy: Set<u128>,
    pending: Map<u128, Option<String>>,
    id: u128,
    first: Option<String>,
    second: Option<String>,
)
    ensures
        busy.contains(id) ==> ({
            let (p1, a1) = branch_change(busy, pending, id, first);
            let (p2, a2) = branch_change(busy, p1, id, second);
            &&& a1.is_none() && a2.is_none()
            &&& released_branch(p2, id) == Some(second)
        }),
        !busy.contains(id) ==> branch_change(busy, pending, id, first) == (pending, Some(first)),
{
}

/// The placeholder shown for a value a session does not have.
pub open spec fn dash() -> Seq<char> {
    "—"@
}

pub open spec fn or_dash(v: Option<Seq<char>>) -> Seq<char> {
    match v {
        Some(t) => t,
        None => dash(),
    }
}

/// The text of the `/status` command.
pub open spec fn session_status(agent: Seq<char>, model: Option<Seq<char>>, session_id: Option<Seq<char>>, ctx_pct: u32, current: i64, max: i64, turns: u64, dir: Option<Seq<char>>) -> Seq<char> {
    "Agent:    "@ + agent + "\nModel:    "@ + or_dash(model) + "\nSession:  "@ + or_dash(session_id) + "\nContext:  "@
        + decimal(ctx_pct as nat) + "% ("@ + signed_decimal(current as int) + " / "@ + signed_decimal(max as int)
        + " tokens)\nTurns:    "@ + decimal(turns as nat) + "\nDir:      "@ + or_dash(dir)
}

fn push_or_dash(s: &mut String, v: Option<&str>)
    ensures
        final(s)@ == old(s)@ + or_dash(match v { Some(t) => Some(t@), None => None }),
{
    match v {
        Some(t) => push_str(s, t),
        None => push_str(s, "—"),
    }
}

/// Formats the `/status` report of a session. `ctx_pct` is the context use
/// in whole percent.
pub fn format_session_status(agent: &str, model: Option<&str>, session_id: Option<&str>, ctx_pct: u32, current: i64, max: i64, turns: u64, dir: Option<&str>) -> (s: String)
    ensures
        s@ == session_status(
            agent@,
            match model { Some(t) => Some(t@), None => None },
            match session_id { Some(t) => Some(t@), None => None },
            ctx_pct,
            current,
            max,
            turns,
            match dir { Some(t) => Some(t@), None => None },
        ),
{
    let mut s = string_from_str("Agent:    ");
    push_str(&mut s, agent);
    push_str(&mut s, "\nModel:    ");
    push_or_dash(&mut s, model);
    push_str(&mut s, "\nSession:  ");
    push_or_dash(&mut s, session_id);
    push_str(&mut s, "\nContext:  ");
    push_u64_decimal(&mut s, ctx_pct as u64);
    push_str(&mut s, "% (");
    push_i64_decimal(&mut s, current);
    push_str(&mut s, " / ");
    push_i64_decimal(&mut s, max);
    push_str(&mut s, " tokens)\nTurns:    ");
    push_u64_decimal(&mut s, turns);
    push_str(&mut s, "\nDir:      ");
    push_or_dash(&mut s, dir);
    s
}

/// A second Ctrl+C within the double-press window quits, whether or not an
/// agent is running (and then interrupts it first).
pub proof fn lemma_second_ctrl_c_quits(
    p: PressView,
    first: u64,
    first_processing: bool,
    first_input: Seq<char>,
    second: u64,
    second_processing: bool,
    second_input: Seq<char>,
)
    requires
        !is_double_press(p.last_ctrl_c, first),
        first <= second,
        second - first < double_press_timeout_ms(),
    ensures
        ({
            let (q, o1) = ctrl_c_step(p, first, first_processing, first_input);
            let (r, o2) = ctrl_c_step(q, second, second_processing, second_input);
            &&& !q.should_quit || p.should_quit
            &&& r.should_quit
            &&& (second_processing ==> o2 == CtrlCOutcome::InterruptAndQuit)
            &&& (!second_processing ==> o2 == CtrlCOutcome::Quit)
        }),
{
}

/// Once the double-press window has passed and the periodic clean-up ran,
/// Ctrl+C is a first press again: it never quits.
pub proof fn lemma_stale_ctrl_c_starts_over(
    p: PressView,
    now: u64,
    later: u64,
    processing: bool,
    input: Seq<char>,
)
    requires
        press_expired(p.last_ctrl_c, now),
        !p.should_quit,
    ensures
        !ctrl_c_step(expire_step(p, now), later, processing, input).0.should_quit,
{
}

/// A second Esc within the window interrupts a running agent (or clears the
/// input when idle) and disarms, so a third press only warns again.
pub proof fn lemma_second_esc_acts_then_disarms(
    p: PressView,
    first: u64,
    second: u64,
    third: u64,
    processing: bool,
)
    requires
        !is_double_press(p.last_esc, first),
        first <= second,
        second - first < double_press_timeout_ms(),
    ensures
        ({
            let (q, o1) = esc_step(p, first, processing);
            let (r, o2) = esc_step(q, second, processing);
            let (u, o3) = esc_step(r, third, processing);
            &&& o1 == EscOutcome::Warn
            &&& o2 == (if processing { EscOutcome::Interrupt } else { EscOutcome::ClearInput })
            &&& r.message.is_none()
            &&& o3 == EscOutcome::Warn
        }),
{
}

/// With nothing else on the footer, starting background work shows its busy
/// message, and ending it removes the message and leaves the footer as it
/// was; the markers are back as they were too.
pub proof fn lemma_busy_marker_round_trip(
    repos: Set<u128>,
    actions: Set<u128>,
    workspaces: Set<u128>,
    f: FooterView,
    id: u128,
)
    requires
        !workspaces.contains(id),
        busy_text(repos, actions, workspaces).is_none(),
        f.message.is_none(),
        f.expires_at.is_none(),
        f.busy_message.is_none(),
        !f.busy_active,
    ensures
        ({
            let w1 = workspaces.insert(id);
            let f1 = synced_footer(f, busy_text(repos, actions, w1));
            let w2 = w1.remove(id);
            let f2 = synced_footer(f1, busy_text(repos, actions, w2));
            &&& f1.message == Some(working_text())
            &&& w2 == workspaces
            &&& f2 == f
        }),
{
    let w1 = workspaces.insert(id);
    assert(w1.contains(id));
    assert(!w1.is_empty());
    assert(w1.remove(id) =~= workspaces);
}

/// Background work never hides a message that is already showing: a timed
/// message, or any message not put there by earlier background work, stays.
pub proof fn lemma_busy_keeps_shown_message(f: FooterView, d: Seq<char>)
    requires
        f.expires_at.is_some() || (f.message.is_some() && !f.busy_active),
    ensures
        synced_footer(f, Some(d)).message == f.message,
        synced_footer(f, Some(d)).busy_message == Some(d),
{
}

} // verus!

