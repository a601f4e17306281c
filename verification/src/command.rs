//! The command line and the key triggers that open menus: when `:` opens
//! command mode and `/` or `$` the resolver menu, how a typed command is
//! read, and how tab completion extends it.
use vstd::prelude::*;
use crate::text::{
    all_ascii, ascii_lower, chars_less, chars_of, chars_start_with, is_space, lower_text,
    starts_with, string_from_chars, string_from_str, text_less, to_lowercase, trim_chars, trimmed,
    views, char_is_space, chars_equal,
};

verus! {

/// What the keyboard is currently driving.
#[derive(PartialEq, Eq, Structural, Clone, Copy, Debug)]
pub enum InputMode {
    Normal,
    Scrolling,
    Command,
    ShowingHelp,
    AddingRepository,
    SettingBaseDir,
    PickingProject,
    ShowingError,
    SelectingAgent,
    Confirming,
    ImportingSession,
    CommandPalette,
    SlashMenu,
    FileMention,
    SelectingTheme,
    SelectingProviders,
    SelectingModel,
    SelectingReasoning,
    SelectingOrchestration,
    SettingsMenu,
    WorkspaceDefaults,
    SidebarNavigation,
    CreatingWorkspace,
    SelectingIssue,
    MissingTool,
    FileViewer,
    SelectingSpec,
    SelectingSpecifySpec,
    KeybindingsEditor,
    KeybindingsEditorCapture,
    CloningRepository,
    RemovingProject,
    SyncingRemote,
    WorkCompleting,
    QueueEditing,
}

/// The modes in which `:` is typed as text instead of opening command mode.
pub open spec fn colon_is_text_in(mode: InputMode) -> bool {
    match mode {
        InputMode::Command | InputMode::ShowingHelp | InputMode::AddingRepository
        | InputMode::SettingBaseDir | InputMode::PickingProject | InputMode::ShowingError
        | InputMode::SelectingAgent | InputMode::Confirming | InputMode::ImportingSession
        | InputMode::CommandPalette | InputMode::SlashMenu | InputMode::SelectingTheme
        | InputMode::SelectingProviders | InputMode::SelectingModel | InputMode::SelectingReasoning => true,
        _ => false,
    }
}

/// Whether a key press opens command mode: a bare `:` on an empty input,
/// outside shell mode and inline prompts, in a mode that does not take the
/// colon as text.
pub fn should_trigger_command_mode(key: Option<char>, no_modifiers: bool, mode: InputMode, input_is_empty: bool, shell_mode: bool, has_inline_prompt: bool) -> (b: bool)
    ensures
        b == (key == Some(':') && no_modifiers && input_is_empty && !shell_mode && !has_inline_prompt && !colon_is_text_in(mode)),
{
    let blocked = match mode {
        InputMode::Command | InputMode::ShowingHelp | InputMode::AddingRepository
        | InputMode::SettingBaseDir | InputMode::PickingProject | InputMode::ShowingError
        | InputMode::SelectingAgent | InputMode::Confirming | InputMode::ImportingSession
        | InputMode::CommandPalette | InputMode::SlashMenu | InputMode::SelectingTheme
        | InputMode::SelectingProviders | InputMode::SelectingModel | InputMode::SelectingReasoning => true,
        _ => false,
    };
    key == Some(':') && no_modifiers && input_is_empty && !shell_mode && !has_inline_prompt && !blocked
}

/// Whether a key press opens the resolver menu: a bare `/` or `$` on an
/// empty input of an active session in normal mode, outside shell mode and
/// inline prompts.
pub fn should_trigger_slash_menu(key: Option<char>, no_modifiers: bool, mode: InputMode, input_is_empty: bool, shell_mode: bool, has_inline_prompt: bool, has_active_session: bool) -> (b: bool)
    ensures
        b == ((key == Some('/') || key == Some('$')) && no_modifiers && input_is_empty && has_active_session && !shell_mode && !has_inline_prompt && mode == InputMode::Normal),
{
    (key == Some('/') || key == Some('$')) && no_modifiers && input_is_empty && has_active_session && !shell_mode && !has_inline_prompt && mode == InputMode::Normal
}

// ---------------------------------------------------------------------------
// Completion
// ---------------------------------------------------------------------------

/// The number of leading characters that `a` and `b` share.
pub open spec fn common_len(a: Seq<char>, b: Seq<char>) -> nat
    decreases a.len(),
{
    if a.len() == 0 || b.len() == 0 || a[0] != b[0] {
        0
    } else {
        1 + common_len(a.drop_first(), b.drop_first())
    }
}

/// How many leading characters of the first text all texts share.
pub open spec fn shared_len(xs: Seq<Seq<char>>) -> nat
    decreases xs.len(),
{
    if xs.len() <= 1 {
        if xs.len() == 1 {
            xs[0].len()
        } else {
            0
        }
    } else {
        let r = shared_len(xs.drop_last());
        let c = common_len(xs[0], xs.last());
        if c < r {
            c
        } else {
            r
        }
    }
}

/// The longest prefix that all the texts share.
pub open spec fn common_prefix(xs: Seq<Seq<char>>) -> Seq<char> {
    if xs.len() == 0 {
        Seq::empty()
    } else {
        xs[0].take(shared_len(xs) as int)
    }
}

proof fn lemma_common_len_bound(a: Seq<char>, b: Seq<char>)
    ensures
        common_len(a, b) <= a.len(),
        common_len(a, b) <= b.len(),
    decreases a.len(),
{
    if !(a.len() == 0 || b.len() == 0 || a[0] != b[0]) {
        lemma_common_len_bound(a.drop_first(), b.drop_first());
    }
}

proof fn lemma_shared_len_bound(xs: Seq<Seq<char>>)
    requires
        xs.len() >= 1,
    ensures
        shared_len(xs) <= xs[0].len(),
    decreases xs.len(),
{
    if xs.len() > 1 {
        lemma_shared_len_bound(xs.drop_last());
        lemma_common_len_bound(xs[0], xs.last());
    }
}

proof fn lemma_common_len_prefix(a: Seq<char>, b: Seq<char>)
    ensures
        a.take(common_len(a, b) as int) == b.take(common_len(a, b) as int),
        forall|p: Seq<char>| starts_with(a, p) && starts_with(b, p) ==> p.len() <= common_len(a, b),
    decreases a.len(),
{
    lemma_common_len_bound(a, b);
    if a.len() == 0 || b.len() == 0 || a[0] != b[0] {
        assert(a.take(0) =~= b.take(0));
        assert forall|p: Seq<char>| starts_with(a, p) && starts_with(b, p) implies p.len() <= common_len(a, b) by {
            if p.len() > 0 {
                assert(a.take(p.len() as int)[0] == p[0]);
                assert(b.take(p.len() as int)[0] == p[0]);
            }
        }
    } else {
        let (a1, b1) = (a.drop_first(), b.drop_first());
        lemma_common_len_prefix(a1, b1);
        let c = common_len(a, b);
        assert(a.take(c as int) =~= seq![a[0]] + a1.take(c - 1));
        assert(b.take(c as int) =~= seq![b[0]] + b1.take(c - 1));
        assert forall|p: Seq<char>| starts_with(a, p) && starts_with(b, p) implies p.len() <= common_len(a, b) by {
            if p.len() > 0 {
                let p1 = p.drop_first();
                assert(a1.take(p1.len() as int) =~= a.take(p.len() as int).drop_first());
                assert(b1.take(p1.len() as int) =~= b.take(p.len() as int).drop_first());
                assert(starts_with(a1, p1) && starts_with(b1, p1));
            }
        }
    }
}

/// `p` begins every one of the texts.
pub open spec fn prefix_of_all(xs: Seq<Seq<char>>, p: Seq<char>) -> bool {
    forall|i: int| 0 <= i < xs.len() ==> starts_with(#[trigger] xs[i], p)
}

proof fn lemma_shared_len_prefix(xs: Seq<Seq<char>>)
    requires
        xs.len() >= 1,
    ensures
        shared_len(xs) <= xs[0].len(),
        forall|i: int| 0 <= i < xs.len() ==> starts_with(#[trigger] xs[i], xs[0].take(shared_len(xs) as int)),
        forall|p: Seq<char>| #[trigger] prefix_of_all(xs, p) ==> p.len() <= shared_len(xs),
    decreases xs.len(),
{
    lemma_shared_len_bound(xs);
    if xs.len() == 1 {
        assert(xs[0].take(xs[0].len() as int) =~= xs[0]);
        assert forall|p: Seq<char>| #[trigger] prefix_of_all(xs, p) implies p.len() <= shared_len(xs) by {
            assert(starts_with(xs[0], p));
        }
    } else {
        let d = xs.drop_last();
        lemma_shared_len_prefix(d);
        let l = xs.last();
        lemma_common_len_prefix(xs[0], l);
        lemma_common_len_bound(xs[0], l);
        let s = shared_len(xs);
        let r = shared_len(d);
        let c = common_len(xs[0], l);
        assert(d[0] == xs[0]);
        assert forall|i: int| 0 <= i < xs.len() implies starts_with(#[trigger] xs[i], xs[0].take(s as int)) by {
            if i == xs.len() - 1 {
                assert(xs[0].take(s as int) =~= xs[0].take(c as int).take(s as int));
                assert(l.take(s as int) =~= l.take(c as int).take(s as int));
            } else {
                assert(d[i] == xs[i]);
                assert(starts_with(d[i], xs[0].take(r as int)));
                assert(xs[i].take(s as int) =~= xs[i].take(r as int).take(s as int));
                assert(xs[0].take(s as int) =~= xs[0].take(r as int).take(s as int));
            }
        }
        assert forall|p: Seq<char>| #[trigger] prefix_of_all(xs, p) implies p.len() <= shared_len(xs) by {
            assert forall|i: int| 0 <= i < d.len() implies starts_with(#[trigger] d[i], p) by {
                assert(d[i] == xs[i]);
            }
            assert(prefix_of_all(d, p));
            assert(starts_with(xs[0], p));
            assert(starts_with(xs[xs.len() - 1], p));
        }
    }
}

/// The common prefix of the texts is a prefix of every one of them, and no
/// longer text is.
pub proof fn lemma_common_prefix_is_longest(xs: Seq<Seq<char>>)
    requires
        xs.len() >= 1,
    ensures
        prefix_of_all(xs, common_prefix(xs)),
        forall|p: Seq<char>| #[trigger] prefix_of_all(xs, p) ==> p.len() <= common_prefix(xs).len(),
{
    lemma_shared_len_prefix(xs);
}

fn common_len_of(a: &Vec<char>, b: &Vec<char>) -> (n: usize)
    ensures
        n == common_len(a@, b@),
{
    let mut i: usize = 0;
    assert(a@.skip(0) =~= a@);
    assert(b@.skip(0) =~= b@);
    while i < a.len() && i < b.len() && a[i] == b[i]
        invariant
            i <= a.len(),
            i <= b.len(),
            common_len(a@, b@) == i + common_len(a@.skip(i as int), b@.skip(i as int)),
        decreases a.len() - i,
    {
        assert(a@.skip(i as int).drop_first() =~= a@.skip(i + 1));
        assert(b@.skip(i as int).drop_first() =~= b@.skip(i + 1));
        i = i + 1;
    }
    proof {
        if i < a.len() && i < b.len() {
            assert(a@.skip(i as int)[0] == a@[i as int]);
            assert(b@.skip(i as int)[0] == b@[i as int]);
        }
    }
    i
}

/// The longest prefix, in characters, that all the given texts share.
pub fn longest_common_prefix(strings: &Vec<Vec<char>>) -> (r: Vec<char>)
    ensures
        r@ == common_prefix(strings@.map_values(|v: Vec<char>| v@)),
{
    let ghost xs = strings@.map_values(|v: Vec<char>| v@);
    if strings.len() == 0 {
        return Vec::new();
    }
    let first = &strings[0];
    let mut n: usize = first.len();
    let mut i: usize = 1;
    proof {
        assert(xs.take(1).len() == 1);
        assert(shared_len(xs.take(1)) == xs[0].len());
    }
    while i < strings.len()
        invariant
            1 <= i <= strings.len(),
            xs == strings@.map_values(|v: Vec<char>| v@),
            first@ == xs[0],
            n == shared_len(xs.take(i as int)),
        decreases strings.len() - i,
    {
        let c = common_len_of(first, &strings[i]);
        proof {
            let t = xs.take(i + 1);
            assert(t.drop_last() =~= xs.take(i as int));
            assert(t[0] == xs[0]);
            assert(t.last() == strings@[i as int]@);
        }
        if c < n {
            n = c;
        }
        i = i + 1;
    }
    proof {
        assert(xs.take(i as int) =~= xs);
        lemma_shared_len_bound(xs);
    }
    let mut r: Vec<char> = Vec::new();
    let mut k: usize = 0;
    while k < n
        invariant
            k <= n,
            n <= first.len(),
            r@ == first@.take(k as int),
        decreases n - k,
    {
        r.push(first[k]);
        k = k + 1;
        assert(r@ =~= first@.take(k as int));
    }
    r
}

/// The names that begin with a prefix, in their order.
pub open spec fn names_with_prefix(names: Seq<Seq<char>>, prefix: Seq<char>) -> Seq<Seq<char>>
    decreases names.len(),
{
    if names.len() == 0 {
        Seq::empty()
    } else {
        let r = names_with_prefix(names.drop_last(), prefix);
        if starts_with(names.last(), prefix) {
            r.push(names.last())
        } else {
            r
        }
    }
}

/// The first text of `xs` that sorts after `current`, if any.
pub open spec fn first_after(xs: Seq<Seq<char>>, current: Seq<char>) -> Option<Seq<char>>
    decreases xs.len(),
{
    if xs.len() == 0 {
        None
    } else if text_less(current, xs[0]) {
        Some(xs[0])
    } else {
        first_after(xs.drop_first(), current)
    }
}

/// The command buffer after tab completion. The typed text, trimmed and
/// lowercased, selects the command names that begin with it: a single match
/// is completed, several matches are completed to their longest shared
/// prefix when that is longer than the typed text, and otherwise the buffer
/// cycles to the first match that sorts after it (or the first match).
pub open spec fn completed(buffer: Seq<char>, names: Seq<Seq<char>>) -> Seq<char> {
    let prefix = lower_text(trimmed(buffer));
    let matches = names_with_prefix(names, prefix);
    if prefix.len() == 0 || matches.len() == 0 {
        buffer
    } else if matches.len() == 1 {
        matches[0]
    } else if common_prefix(matches).len() > prefix.len() {
        common_prefix(matches)
    } else {
        match first_after(matches, buffer) {
            Some(m) => m,
            None => matches[0],
        }
    }
}

/// Completes the command buffer against the known command names.
pub fn complete_command(buffer: &str, names: &Vec<String>) -> (r: String)
    ensures
        r@ == completed(buffer@, views(names@)),
{
    let bc = chars_of(buffer);
    let trimmed_buf = trim_chars(&bc);
    let trimmed_text = string_from_chars(trimmed_buf.as_slice());
    let prefix_s = to_lowercase(trimmed_text.as_str());
    let prefix = chars_of(prefix_s.as_str());
    if prefix.len() == 0 {
        return string_from_str(buffer);
    }
    let ghost nv = views(names@);
    let mut matches: Vec<Vec<char>> = Vec::new();
    let mut i: usize = 0;
    while i < names.len()
        invariant
            i <= names.len(),
            nv == views(names@),
            prefix@ == lower_text(trimmed(buffer@)),
            matches@.map_values(|v: Vec<char>| v@) == names_with_prefix(nv.take(i as int), prefix@),
        decreases names.len() - i,
    {
        let cs = chars_of(names[i].as_str());
        proof {
            let t = nv.take(i + 1);
            assert(t.drop_last() =~= nv.take(i as int));
            assert(t.last() == names@[i as int]@);
        }
        if chars_start_with(&cs, &prefix) {
            let ghost before = matches@.map_values(|v: Vec<char>| v@);
            matches.push(cs);
            assert(matches@.map_values(|v: Vec<char>| v@) =~= before.push(names@[i as int]@));
        }
        i = i + 1;
    }
    let ghost mv = matches@.map_values(|v: Vec<char>| v@);
    assert(nv.take(names.len() as int) =~= nv);
    if matches.len() == 0 {
        return string_from_str(buffer);
    }
    if matches.len() == 1 {
        return string_from_chars(matches[0].as_slice());
    }
    let common = longest_common_prefix(&matches);
    if common.len() > prefix.len() {
        return string_from_chars(common.as_slice());
    }
    let mut k: usize = 0;
    assert(mv.skip(0) =~= mv);
    while k < matches.len()
        invariant
            k <= matches.len(),
            mv == matches@.map_values(|v: Vec<char>| v@),
            bc@ == buffer@,
            prefix@ == lower_text(trimmed(buffer@)),
            prefix@.len() > 0,
            mv == names_with_prefix(views(names@), prefix@),
            mv.len() > 1,
            common_prefix(mv).len() <= prefix@.len(),
            first_after(mv, buffer@) == first_after(mv.skip(k as int), buffer@),
        decreases matches.len() - k,
    {
        assert(mv.skip(k as int)[0] == matches@[k as int]@);
        assert(mv.skip(k as int).drop_first() =~= mv.skip(k + 1));
        if chars_less(&bc, &matches[k]) {
            return string_from_chars(matches[k].as_slice());
        }
        k = k + 1;
    }
    string_from_chars(matches[0].as_slice())
}

// ---------------------------------------------------------------------------
// Reading a typed command
// ---------------------------------------------------------------------------

/// What a typed command asks for.
pub enum CommandOutcome {
    /// `:open` without a path: show the usage hint.
    OpenUsage,
    /// `:open <path>`: open the file. When the path starts at the home
    /// directory, `home_relative` holds the part after `~/` (empty for `~`).
    OpenPath { path: String, home_relative: Option<String> },
    /// `help`, `h` or `?`: show the key bindings.
    ShowHelp,
    /// `q`: quit.
    Quit,
    /// Anything else: the lowercased command, to be read as an action name.
    Action { name: String },
}

/// The index of the first white-space character, or the length when none.
pub open spec fn first_space(s: Seq<char>) -> nat
    decreases s.len(),
{
    if s.len() == 0 {
        0
    } else if is_space(s[0]) {
        0
    } else {
        1 + first_space(s.drop_first())
    }
}

/// The command word: the text up to the first white space.
pub open spec fn command_word(c: Seq<char>) -> Seq<char> {
    c.take(first_space(c) as int)
}

/// The argument: what follows the first white-space character, trimmed.
pub open spec fn command_rest(c: Seq<char>) -> Seq<char> {
    if first_space(c) < c.len() {
        trimmed(c.skip(first_space(c) as int + 1))
    } else {
        Seq::empty()
    }
}

/// A path without one pair of surrounding double or single quotes.
pub open spec fn unquoted(p: Seq<char>) -> Seq<char> {
    if p.len() >= 2 && p[0] == '"' && p.last() == '"' {
        p.subrange(1, p.len() - 1)
    } else if p.len() >= 2 && p[0] == '\'' && p.last() == '\'' {
        p.subrange(1, p.len() - 1)
    } else {
        p
    }
}

/// The part of a path below the home directory, when it starts with `~`
/// alone or `~/` or `~\`.
pub open spec fn home_part(p: Seq<char>) -> Option<Seq<char>> {
    if p == seq!['~'] {
        Some(Seq::empty())
    } else if p.len() >= 2 && p[0] == '~' && (p[1] == '/' || p[1] == '\\') {
        Some(p.skip(2))
    } else {
        None
    }
}

/// Whether a word is `open` or `o`, ignoring ASCII case.
pub open spec fn is_open_word(w: Seq<char>) -> bool {
    w.map_values(|c: char| ascii_lower(c)) == "open"@ || w.map_values(|c: char| ascii_lower(c)) == "o"@
}

pub open spec fn opt_view(o: Option<String>) -> Option<Seq<char>> {
    match o {
        Some(s) => Some(s@),
        None => None,
    }
}

fn first_space_index(s: &Vec<char>) -> (n: usize)
    ensures
        n == first_space(s@),
        n <= s.len(),
{
    let mut i: usize = 0;
    assert(s@.skip(0) =~= s@);
    while i < s.len() && !char_is_space(s[i])
        invariant
            i <= s.len(),
            first_space(s@) == i + first_space(s@.skip(i as int)),
        decreases s.len() - i,
    {
        assert(s@.skip(i as int)[0] == s@[i as int]);
        assert(s@.skip(i as int).drop_first() =~= s@.skip(i + 1));
        i = i + 1;
    }
    proof {
        if i < s.len() {
            assert(s@.skip(i as int)[0] == s@[i as int]);
        }
    }
    i
}

fn lower_ascii_chars(s: &Vec<char>) -> (r: Vec<char>)
    ensures
        r@ == s@.map_values(|c: char| ascii_lower(c)),
{
    let mut r: Vec<char> = Vec::new();
    let mut i: usize = 0;
    while i < s.len()
        invariant
            i <= s.len(),
            r@ == s@.take(i as int).map_values(|c: char| ascii_lower(c)),
        decreases s.len() - i,
    {
        let c = s[i];
        let l = if 'A' <= c && c <= 'Z' { ((c as u32) + 32) as u8 as char } else { c };
        proof {
            if 'A' <= c && c <= 'Z' {
                assert(((c as u32) + 32) as u8 as char == ((c as u32) + 32) as char);
            }
        }
        r.push(l);
        i = i + 1;
        assert(r@ =~= s@.take(i as int).map_values(|c: char| ascii_lower(c)));
    }
    assert(s@.take(s.len() as int) =~= s@);
    r
}

fn word_is(w: &Vec<char>, lit: &str) -> (b: bool)
    ensures
        b == (w@ == lit@),
{
    let l = chars_of(lit);
    chars_equal(w, &l)
}

/// The outcome of a typed command, read from the trimmed buffer: `open` or
/// `o` (any ASCII case) with a path opens it, keeping the path's case and
/// dropping one pair of surrounding quotes; otherwise the lowercased command
/// is `help`/`h`/`?`, `q`, or an action name.
pub open spec fn command_outcome_kind(buffer: Seq<char>) -> CommandKind {
    let c = trimmed(buffer);
    let word = command_word(c);
    let path = unquoted(command_rest(c));
    if is_open_word(word) && command_rest(c).len() == 0 {
        CommandKind::OpenUsage
    } else if is_open_word(word) && path.len() > 0 {
        CommandKind::OpenPath(path, home_part(path))
    } else {
        let lower = lower_text(c);
        if lower == "help"@ || lower == "h"@ || lower == "?"@ {
            CommandKind::ShowHelp
        } else if lower == "q"@ {
            CommandKind::Quit
        } else {
            CommandKind::Action(lower)
        }
    }
}

/// The outcome of a typed command as the contracts see it.
pub enum CommandKind {
    OpenUsage,
    OpenPath(Seq<char>, Option<Seq<char>>),
    ShowHelp,
    Quit,
    Action(Seq<char>),
}

pub open spec fn outcome_kind(o: CommandOutcome) -> CommandKind {
    match o {
        CommandOutcome::OpenUsage => CommandKind::OpenUsage,
        CommandOutcome::OpenPath { path, home_relative } => CommandKind::OpenPath(path@, opt_view(home_relative)),
        CommandOutcome::ShowHelp => CommandKind::ShowHelp,
        CommandOutcome::Quit => CommandKind::Quit,
        CommandOutcome::Action { name } => CommandKind::Action(name@),
    }
}

/// Reads the command typed in command mode.
pub fn parse_command(buffer: &str) -> (o: CommandOutcome)
    ensures
        outcome_kind(o) == command_outcome_kind(buffer@),
{
    let bc = chars_of(buffer);
    let c = trim_chars(&bc);
    let n = first_space_index(&c);
    let mut word: Vec<char> = Vec::new();
    let mut k: usize = 0;
    while k < n
        invariant
            k <= n,
            n <= c.len(),
            word@ == c@.take(k as int),
        decreases n - k,
    {
        word.push(c[k]);
        k = k + 1;
        assert(word@ =~= c@.take(k as int));
    }
    let rest: Vec<char> = if n < c.len() {
        let mut tail: Vec<char> = Vec::new();
        let mut j: usize = n + 1;
        while j < c.len()
            invariant
                n + 1 <= j <= c.len(),
                tail@ == c@.subrange(n + 1, j as int),
            decreases c.len() - j,
        {
            tail.push(c[j]);
            j = j + 1;
            assert(tail@ =~= c@.subrange(n + 1, j as int));
        }
        assert(tail@ =~= c@.skip(n + 1));
        trim_chars(&tail)
    } else {
        Vec::new()
    };
    let lw = lower_ascii_chars(&word);
    let is_open = word_is(&lw, "open") || word_is(&lw, "o");
    proof {
        reveal_strlit("open");
        reveal_strlit("o");
    }
    if is_open && rest.len() == 0 {
        return CommandOutcome::OpenUsage;
    }
    if is_open {
        let rl = rest.len();
        let quoted = rl >= 2 && ((rest[0] == '"' && rest[rl - 1] == '"') || (rest[0] == '\'' && rest[rl - 1] == '\''));
        let mut path: Vec<char> = Vec::new();
        if quoted {
            let mut j: usize = 1;
            while j < rl - 1
                invariant
                    1 <= j <= rl - 1,
                    rl == rest.len(),
                    rl >= 2,
                    path@ == rest@.subrange(1, j as int),
                decreases rl - 1 - j,
            {
                path.push(rest[j]);
                j = j + 1;
                assert(path@ =~= rest@.subrange(1, j as int));
            }
        } else {
            path = rest;
        }
        proof {
            assert(rest@.len() >= 2 ==> rest@.last() == rest@[rl - 1]);
        }
        if path.len() > 0 {
            let pl = path.len();
            let home: Option<String> = if pl == 1 && path[0] == '~' {
                Some(String::new())
            } else if pl >= 2 && path[0] == '~' && (path[1] == '/' || path[1] == '\\') {
                let mut h: Vec<char> = Vec::new();
                let mut j: usize = 2;
                while j < pl
                    invariant
                        2 <= j <= pl,
                        pl == path.len(),
                        h@ == path@.subrange(2, j as int),
                    decreases pl - j,
                {
                    h.push(path[j]);
                    j = j + 1;
                    assert(h@ =~= path@.subrange(2, j as int));
                }
                assert(h@ =~= path@.skip(2));
                Some(string_from_chars(h.as_slice()))
            } else {
                None
            };
            proof {
                if pl == 1 && path@[0] == '~' {
                    assert(path@ =~= seq!['~']);
                }
                if path@ == seq!['~'] {
                    assert(pl == 1);
                }
            }
            return CommandOutcome::OpenPath { path: string_from_chars(path.as_slice()), home_relative: home };
        }
    }
    let ct = string_from_chars(c.as_slice());
    let lower_s = to_lowercase(ct.as_str());
    let lower = chars_of(lower_s.as_str());
    let is_help = word_is(&lower, "help") || word_is(&lower, "h") || word_is(&lower, "?");
    proof {
        reveal_strlit("help");
        reveal_strlit("h");
        reveal_strlit("?");
        reveal_strlit("q");
    }
    if is_help {
        return CommandOutcome::ShowHelp;
    }
    if word_is(&lower, "q") {
        return CommandOutcome::Quit;
    }
    CommandOutcome::Action { name: lower_s }
}

// ---------------------------------------------------------------------------
// Slash commands and footer keys
// ---------------------------------------------------------------------------

/// The commands of Conduit itself that the resolver menu offers.
#[derive(PartialEq, Eq, Structural, Clone, Copy, Debug)]
pub enum ConduitCommand {
    Model,
    Reasoning,
    Providers,
    Fork,
    Handoff,
    NewSession,
    Btw,
    Status,
    Rewind,
    AdversarialReview,
}

/// The keybinding actions that slash commands stand for.
#[derive(PartialEq, Eq, Structural, Clone, Copy, Debug)]
pub enum SlashAction {
    ShowModelSelector,
    ShowReasoningSelector,
    ShowProvidersSelector,
    ForkSession,
    HandoffSession,
}

/// The action a slash command runs, for the commands that are actions.
pub open spec fn slash_action(c: ConduitCommand) -> Option<SlashAction> {
    match c {
        ConduitCommand::Model => Some(SlashAction::ShowModelSelector),
        ConduitCommand::Reasoning => Some(SlashAction::ShowReasoningSelector),
        ConduitCommand::Providers => Some(SlashAction::ShowProvidersSelector),
        ConduitCommand::Fork => Some(SlashAction::ForkSession),
        ConduitCommand::Handoff => Some(SlashAction::HandoffSession),
        _ => None,
    }
}

/// Maps a slash command to its action.
pub fn slash_command_action(c: ConduitCommand) -> (a: Option<SlashAction>)
    ensures
        a == slash_action(c),
{
    match c {
        ConduitCommand::Model => Some(SlashAction::ShowModelSelector),
        ConduitCommand::Reasoning => Some(SlashAction::ShowReasoningSelector),
        ConduitCommand::Providers => Some(SlashAction::ShowProvidersSelector),
        ConduitCommand::Fork => Some(SlashAction::ForkSession),
        ConduitCommand::Handoff => Some(SlashAction::HandoffSession),
        ConduitCommand::NewSession | ConduitCommand::Btw | ConduitCommand::Status | ConduitCommand::Rewind
        | ConduitCommand::AdversarialReview => None,
    }
}

/// What running a Conduit command from the resolver menu does.
#[derive(PartialEq, Eq, Structural, Clone, Copy, Debug)]
pub enum CommandStep {
    /// Run the keybinding action.
    Run(SlashAction),
    /// Start a fresh session in the current tab.
    NewSessionInPlace,
    /// Open the queue editor to add a side note.
    OpenQueueEditor,
    /// Send the adversarial review prompt.
    SubmitAdversarialReview,
    /// Nothing more (the command is handled where it was chosen).
    Nothing,
}

pub open spec fn command_step(c: ConduitCommand) -> CommandStep {
    match slash_action(c) {
        Some(a) => CommandStep::Run(a),
        None => match c {
            ConduitCommand::NewSession => CommandStep::NewSessionInPlace,
            ConduitCommand::Btw => CommandStep::OpenQueueEditor,
            ConduitCommand::AdversarialReview => CommandStep::SubmitAdversarialReview,
            _ => CommandStep::Nothing,
        },
    }
}

/// Decides what a resolved Conduit command does.
pub fn resolved_command_step(c: ConduitCommand) -> (r: CommandStep)
    ensures
        r == command_step(c),
{
    match slash_command_action(c) {
        Some(a) => CommandStep::Run(a),
        None => match c {
            ConduitCommand::NewSession => CommandStep::NewSessionInPlace,
            ConduitCommand::Btw => CommandStep::OpenQueueEditor,
            ConduitCommand::AdversarialReview => CommandStep::SubmitAdversarialReview,
            _ => CommandStep::Nothing,
        },
    }
}

/// The key notation looked up for a footer hint: the first of keys written
/// `a/b`, with `CR` written `<CR>`.
pub open spec fn footer_key(key: Seq<char>) -> Seq<char> {
    let primary = crate::persistence::split_on(key, '/')[0];
    if primary == "CR"@ {
        "<CR>"@
    } else {
        primary
    }
}

/// The key notation for a footer hint.
pub fn footer_key_notation(key: &str) -> (r: String)
    ensures
        r@ == footer_key(key@),
{
    let parts = crate::persistence::split_text(key, '/');
    proof {
        crate::persistence::lemma_split_parts_nonempty(key@, '/');
        assert(parts@.map_values(|p: String| p@)[0] == parts@[0]@);
        reveal_strlit("CR");
        reveal_strlit("<CR>");
    }
    let first = &parts[0];
    if text_equals_str(first.as_str(), "CR") {
        string_from_str("<CR>")
    } else {
        first.clone()
    }
}

fn text_equals_str(a: &str, b: &str) -> (r: bool)
    ensures
        r == (a@ == b@),
{
    crate::text::text_equals(a, b)
}

} // verus!
