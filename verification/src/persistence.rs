//! Session persistence: what is written to the app-state store when the
//! session is saved, how the saved values are read back on start-up, and what
//! the save step reports to the UI.
use vstd::prelude::*;
use crate::text::{
    chars_of, text_equals, decimal, parse_usize, parsed_usize, push_char, push_decimal, push_i32_decimal,
    push_str, signed_decimal, string_from_chars, string_from_str, lemma_parse_decimal,
};

verus! {

/// The warnings collected while saving session state.
pub struct SessionPersistenceReport {
    pub errors: Vec<String>,
}

/// Text used when a report is asked for its first error but holds none.
pub open spec fn unknown_error_text() -> Seq<char> {
    "unknown error"@
}

impl SessionPersistenceReport {
    /// The messages collected so far, in the order they were pushed.
    pub open spec fn messages(&self) -> Seq<Seq<char>> {
        self.errors@.map_values(|s: String| s@)
    }

    /// An empty report.
    pub fn new() -> (r: Self)
        ensures
            r.messages() == Seq::<Seq<char>>::empty(),
    {
        let r = SessionPersistenceReport { errors: Vec::new() };
        assert(r.messages() =~= Seq::<Seq<char>>::empty());
        r
    }

    /// Records one more warning at the end of the report.
    pub fn push(&mut self, message: String)
        ensures
            final(self).messages() == old(self).messages().push(message@),
    {
        self.errors.push(message);
        assert(self.messages() =~= old(self).messages().push(message@));
    }

    /// Whether any warning was recorded.
    pub fn has_errors(&self) -> (b: bool)
        ensures
            b == (self.messages().len() > 0),
    {
        !self.errors.is_empty()
    }

    /// How many warnings were recorded.
    pub fn error_count(&self) -> (n: usize)
        ensures
            n == self.messages().len(),
    {
        self.errors.len()
    }

    /// The first warning, or a fixed placeholder when there is none.
    pub fn first_error_or_unknown(&self) -> (s: &str)
        ensures
            self.messages().len() > 0 ==> s@ == self.messages()[0],
            self.messages().len() == 0 ==> s@ == unknown_error_text(),
    {
        if self.errors.len() > 0 {
            self.errors[0].as_str()
        } else {
            let s = "unknown error";
            proof {
                reveal_strlit("unknown error");
            }
            s
        }
    }
}

/// The messages of a report after each of `ms` is pushed, in turn, onto a
/// report holding `m`.
pub open spec fn after_pushes(m: Seq<Seq<char>>, ms: Seq<Seq<char>>) -> Seq<Seq<char>>
    decreases ms.len(),
{
    if ms.len() == 0 {
        m
    } else {
        after_pushes(m.push(ms[0]), ms.drop_first())
    }
}

proof fn lemma_after_pushes_appends(m: Seq<Seq<char>>, ms: Seq<Seq<char>>)
    ensures
        after_pushes(m, ms) == m + ms,
    decreases ms.len(),
{
    if ms.len() > 0 {
        lemma_after_pushes_appends(m.push(ms[0]), ms.drop_first());
        assert(m.push(ms[0]) + ms.drop_first() =~= m + ms);
    } else {
        assert(m + ms =~= m);
    }
}

/// A report that starts empty and has each of `ms` pushed in turn holds
/// them all in order: it counts them, has errors exactly when one was
/// pushed, and its first error is the first one pushed.
pub proof fn lemma_report_after_pushes(ms: Seq<Seq<char>>)
    ensures
        after_pushes(Seq::empty(), ms) == ms,
        after_pushes(Seq::empty(), ms).len() == ms.len(),
        ms.len() > 0 ==> after_pushes(Seq::empty(), ms)[0] == ms[0],
{
    lemma_after_pushes_appends(Seq::empty(), ms);
    assert(Seq::<Seq<char>>::empty() + ms =~= ms);
}

impl Default for SessionPersistenceReport {
    fn default() -> (r: Self)
        ensures
            r.messages() == Seq::<Seq<char>>::empty(),
    {
        SessionPersistenceReport::new()
    }
}

/// A footer message shown for a limited number of seconds.
pub struct TimedMessage {
    pub text: String,
    pub seconds: u64,
}

/// The footer warning shown after a save that produced warnings.
pub open spec fn save_warning_text() -> Seq<char> {
    "Warning: some session state could not be saved. Check logs."@
}

/// What the UI shows after a save: a five-second warning when the report
/// holds any error, nothing otherwise.
pub fn persistence_warning(report: &SessionPersistenceReport) -> (m: Option<TimedMessage>)
    ensures
        m.is_some() == (report.messages().len() > 0),
        m matches Some(t) ==> t.text@ == save_warning_text() && t.seconds == 5,
{
    if report.has_errors() {
        let text = "Warning: some session state could not be saved. Check logs.";
        proof {
            reveal_strlit("Warning: some session state could not be saved. Check logs.");
        }
        Some(TimedMessage { text: string_from_str(text), seconds: 5 })
    } else {
        None
    }
}

// ---------------------------------------------------------------------------
// Identifiers
// ---------------------------------------------------------------------------

/// A lowercase hexadecimal digit.
pub open spec fn hex_digit(d: nat) -> char {
    if d < 10 {
        (48 + d) as char
    } else {
        (87 + d) as char
    }
}

/// The `n` lowest hexadecimal digits of `v`, most significant first.
pub open spec fn hex_digits(v: nat, n: nat) -> Seq<char>
    decreases n,
{
    if n == 0 {
        Seq::empty()
    } else {
        hex_digits(v / 16, (n - 1) as nat).push(hex_digit(v % 16))
    }
}

/// The hyphenated lowercase text of an identifier: its 32 hexadecimal digits,
/// big-endian, in groups of 8, 4, 4, 4 and 12 separated by `-`.
pub open spec fn hyphenated_uuid(id: u128) -> Seq<char> {
    let h = hex_digits(id as nat, 32);
    h.subrange(0, 8) + seq!['-'] + h.subrange(8, 12) + seq!['-'] + h.subrange(12, 16) + seq!['-']
        + h.subrange(16, 20) + seq!['-'] + h.subrange(20, 32)
}

/// What `uuid::Uuid::parse_str` yields for a text, as the 128-bit value of
/// the identifier.
pub uninterp spec fn parsed_uuid(text: Seq<char>) -> Option<u128>;

/// Writes an identifier in its hyphenated form: `uuid::Uuid::from_u128`
/// followed by `to_string`, which the uuid crate documents as the lowercase
/// hyphenated form of the big-endian value.
#[verifier::external_body]
pub(crate) fn uuid_text(id: u128) -> (s: String)
    ensures
        s@ == hyphenated_uuid(id),
{
    uuid::Uuid::from_u128(id).to_string()
}

/// Reads an identifier with `uuid::Uuid::parse_str`. The parser accepts every
/// format that the uuid crate writes, the hyphenated one among them; which
/// other texts it accepts is left to `parsed_uuid`.
#[verifier::external_body]
pub(crate) fn parse_uuid(s: &str) -> (r: Option<u128>)
    ensures
        r == parsed_uuid(s@),
        forall|v: u128| s@ == hyphenated_uuid(v) ==> r == Some(v),
{
    match uuid::Uuid::parse_str(s) {
        Ok(u) => Some(u.as_u128()),
        Err(_) => None,
    }
}

// ---------------------------------------------------------------------------
// Splitting and joining on a separator
// ---------------------------------------------------------------------------

/// The pieces of `s` between occurrences of `sep`, as `str::split` with a
/// character pattern gives them (the empty text gives one empty piece).
pub open spec fn split_on(s: Seq<char>, sep: char) -> Seq<Seq<char>>
    decreases s.len(),
{
    if s.len() == 0 {
        seq![Seq::<char>::empty()]
    } else {
        let rest = split_on(s.drop_first(), sep);
        if s[0] == sep {
            seq![Seq::<char>::empty()] + rest
        } else {
            rest.update(0, seq![s[0]] + rest[0])
        }
    }
}

/// The pieces joined with `sep` between consecutive ones (`[..].join(",")`).
pub open spec fn join_on(xs: Seq<Seq<char>>, sep: char) -> Seq<char>
    decreases xs.len(),
{
    if xs.len() == 0 {
        Seq::empty()
    } else if xs.len() == 1 {
        xs[0]
    } else {
        xs[0] + seq![sep] + join_on(xs.drop_first(), sep)
    }
}

pub proof fn lemma_split_parts_nonempty(s: Seq<char>, sep: char)
    ensures
        split_on(s, sep).len() >= 1,
{
    lemma_split_nonempty(s, sep);
}

proof fn lemma_split_nonempty(s: Seq<char>, sep: char)
    ensures
        split_on(s, sep).len() >= 1,
    decreases s.len(),
{
    if s.len() > 0 {
        lemma_split_nonempty(s.drop_first(), sep);
    }
}

/// A piece without the separator glues onto the first piece of what follows.
proof fn lemma_split_prefix(a: Seq<char>, t: Seq<char>, sep: char)
    requires
        !a.contains(sep),
    ensures
        split_on(a + t, sep) == split_on(t, sep).update(0, a + split_on(t, sep)[0]),
    decreases a.len(),
{
    lemma_split_nonempty(t, sep);
    if a.len() == 0 {
        assert(a + t =~= t);
        assert(split_on(t, sep).update(0, a + split_on(t, sep)[0]) =~= split_on(t, sep)) by {
            assert(a + split_on(t, sep)[0] =~= split_on(t, sep)[0]);
        }
    } else {
        let a2 = a.drop_first();
        assert(!a2.contains(sep)) by {
            if a2.contains(sep) {
                let k = choose|k: int| 0 <= k < a2.len() && a2[k] == sep;
                assert(a[k + 1] == sep);
            }
        }
        lemma_split_prefix(a2, t, sep);
        assert((a + t).drop_first() =~= a2 + t);
        assert(a[0] != sep) by {
            if a[0] == sep {
                assert(a.contains(sep));
            }
        }
        assert((a + t)[0] == a[0]);
        let r = split_on(t, sep);
        assert(seq![a[0]] + (a2 + r[0]) =~= a + r[0]);
        assert(r.update(0, a2 + r[0]).update(0, seq![a[0]] + (a2 + r[0])) =~= r.update(
            0,
            a + r[0],
        ));
    }
}

/// Splitting a joined list gives the list back, when no piece holds the
/// separator and the list is not empty.
pub proof fn lemma_split_join(xs: Seq<Seq<char>>, sep: char)
    requires
        xs.len() >= 1,
        forall|i: int| 0 <= i < xs.len() ==> !(#[trigger] xs[i]).contains(sep),
    ensures
        split_on(join_on(xs, sep), sep) == xs,
    decreases xs.len(),
{
    if xs.len() == 1 {
        lemma_split_prefix(xs[0], Seq::empty(), sep);
        assert(xs[0] + Seq::<char>::empty() =~= xs[0]);
        assert(split_on(xs[0], sep) =~= xs);
    } else {
        let rest = xs.drop_first();
        assert forall|i: int| 0 <= i < rest.len() implies !(#[trigger] rest[i]).contains(sep) by {
            assert(rest[i] == xs[i + 1]);
        }
        lemma_split_join(rest, sep);
        let tail = seq![sep] + join_on(rest, sep);
        lemma_split_prefix(xs[0], tail, sep);
        assert(xs[0] + seq![sep] + join_on(rest, sep) =~= xs[0] + tail);
        assert(tail.drop_first() =~= join_on(rest, sep));
        assert(split_on(tail, sep) =~= seq![Seq::<char>::empty()] + rest);
        assert(split_on(tail, sep).update(0, xs[0] + split_on(tail, sep)[0]) =~= xs) by {
            assert(xs[0] + Seq::<char>::empty() =~= xs[0]);
        }
    }
}

/// Splits a text on a separator character, as `str::split` does.
pub fn split_text(s: &str, sep: char) -> (parts: Vec<String>)
    ensures
        parts@.map_values(|p: String| p@) == split_on(s@, sep),
{
    let cs = chars_of(s);
    let mut out: Vec<String> = Vec::new();
    let mut cur: Vec<char> = Vec::new();
    let mut i: usize = 0;
    proof {
        lemma_split_nonempty(s@, sep);
        assert(s@.skip(0) =~= s@);
        assert(split_on(s@, sep).update(0, cur@ + split_on(s@, sep)[0]) =~= split_on(s@, sep));
        assert(out@.map_values(|p: String| p@) + split_on(s@, sep) =~= split_on(s@, sep));
    }
    while i < cs.len()
        invariant
            i <= cs.len(),
            cs@ == s@,
            split_on(s@.skip(i as int), sep).len() >= 1,
            split_on(s@, sep) == out@.map_values(|p: String| p@) + split_on(
                s@.skip(i as int),
                sep,
            ).update(0, cur@ + split_on(s@.skip(i as int), sep)[0]),
        decreases cs.len() - i,
    {
        let c = cs[i];
        let ghost before = out@.map_values(|p: String| p@);
        let ghost old_cur = cur@;
        let ghost rest = s@.skip(i as int);
        let ghost next = s@.skip(i + 1);
        proof {
            assert(rest.drop_first() =~= next);
            assert(rest[0] == c);
            lemma_split_nonempty(next, sep);
        }
        if c == sep {
            let piece = string_from_chars(cur.as_slice());
            out.push(piece);
            cur = Vec::new();
            proof {
                let r = split_on(next, sep);
                assert(split_on(rest, sep) == seq![Seq::<char>::empty()] + r);
                assert(out@.map_values(|p: String| p@) =~= before.push(old_cur));
                assert(old_cur + Seq::<char>::empty() =~= old_cur);
                assert((seq![Seq::<char>::empty()] + r).update(0, old_cur + Seq::<char>::empty())
                    =~= seq![old_cur] + r);
                assert(cur@ + r[0] =~= r[0]);
                assert(r.update(0, cur@ + r[0]) =~= r);
                assert(before + (seq![old_cur] + r) =~= before.push(old_cur) + r);
            }
        } else {
            cur.push(c);
            proof {
                let r = split_on(next, sep);
                assert(split_on(rest, sep) == r.update(0, seq![c] + r[0]));
                assert(old_cur + (seq![c] + r[0]) =~= cur@ + r[0]);
                assert(r.update(0, seq![c] + r[0]).update(0, old_cur + (seq![c] + r[0]))
                    =~= r.update(0, cur@ + r[0]));
            }
        }
        i = i + 1;
    }
    let last = string_from_chars(cur.as_slice());
    let ghost before = out@.map_values(|p: String| p@);
    out.push(last);
    proof {
        assert(s@.skip(i as int) =~= Seq::<char>::empty());
        assert(split_on(Seq::<char>::empty(), sep) == seq![Seq::<char>::empty()]);
        assert(out@.map_values(|p: String| p@) =~= before.push(cur@));
        assert(seq![Seq::<char>::empty()].update(0, cur@ + Seq::<char>::empty()) =~= seq![cur@]);
    }
    out
}


proof fn lemma_join_push(xs: Seq<Seq<char>>, y: Seq<char>, sep: char)
    requires
        xs.len() >= 1,
    ensures
        join_on(xs.push(y), sep) == join_on(xs, sep) + seq![sep] + y,
    decreases xs.len(),
{
    if xs.len() == 1 {
        assert(xs.push(y).drop_first() =~= seq![y]);
        assert(join_on(xs.push(y), sep) == xs[0] + seq![sep] + join_on(seq![y], sep));
    } else {
        assert(xs.push(y).drop_first() =~= xs.drop_first().push(y));
        lemma_join_push(xs.drop_first(), y, sep);
        assert(join_on(xs.push(y), sep) == xs[0] + seq![sep] + join_on(xs.drop_first().push(y), sep));
        assert(xs[0] + seq![sep] + (join_on(xs.drop_first(), sep) + seq![sep] + y)
            =~= xs[0] + seq![sep] + join_on(xs.drop_first(), sep) + seq![sep] + y);
    }
}

// ---------------------------------------------------------------------------
// What a save writes
// ---------------------------------------------------------------------------

/// The app-level part of the session state that a save writes to the
/// key/value store (the tab rows go to their own store).
pub struct SessionStateSnapshot {
    pub active_tab_index: usize,
    pub sidebar_visible: bool,
    pub tree_selected_index: usize,
    pub collapsed_repo_ids: Vec<u128>,
}

/// The text stored for a flag.
pub open spec fn bool_text(b: bool) -> Seq<char> {
    if b {
        "true"@
    } else {
        "false"@
    }
}

/// The stored text of the collapsed repositories: their identifiers in
/// hyphenated form, separated by commas.
pub open spec fn collapsed_text(ids: Seq<u128>) -> Seq<char> {
    join_on(ids.map_values(|id: u128| hyphenated_uuid(id)), ',')
}

/// The key/value pairs written by a save, in the order they are written.
pub open spec fn state_entries(
    active_tab_index: usize,
    sidebar_visible: bool,
    tree_selected_index: usize,
    collapsed: Seq<u128>,
) -> Seq<(Seq<char>, Seq<char>)> {
    seq![
        ("active_tab_index"@, decimal(active_tab_index as nat)),
        ("sidebar_visible"@, bool_text(sidebar_visible)),
        ("tree_selected_index"@, decimal(tree_selected_index as nat)),
        ("tree_collapsed_repos"@, collapsed_text(collapsed)),
    ]
}

/// The comma-separated hyphenated identifiers of the collapsed repositories.
pub fn collapsed_repos_text(ids: &Vec<u128>) -> (s: String)
    ensures
        s@ == collapsed_text(ids@),
{
    let mut s = String::new();
    let mut i: usize = 0;
    while i < ids.len()
        invariant
            i <= ids.len(),
            s@ == collapsed_text(ids@.take(i as int)),
        decreases ids.len() - i,
    {
        let ghost before = ids@.take(i as int).map_values(|id: u128| hyphenated_uuid(id));
        if i > 0 {
            push_char(&mut s, ',');
        }
        let t = uuid_text(ids[i]);
        push_str(&mut s, t.as_str());
        proof {
            let after = ids@.take(i + 1).map_values(|id: u128| hyphenated_uuid(id));
            assert(after =~= before.push(hyphenated_uuid(ids@[i as int])));
            if i > 0 {
                lemma_join_push(before, hyphenated_uuid(ids@[i as int]), ',');
            } else {
                assert(s@ =~= hyphenated_uuid(ids@[0]));
            }
        }
        i = i + 1;
    }
    assert(ids@.take(ids.len() as int) =~= ids@);
    s
}

fn text_of_bool(b: bool) -> (s: String)
    ensures
        s@ == bool_text(b),
{
    if b {
        let t = "true";
        proof {
            reveal_strlit("true");
        }
        string_from_str(t)
    } else {
        let t = "false";
        proof {
            reveal_strlit("false");
        }
        string_from_str(t)
    }
}

fn key_text(k: &str) -> (s: String)
    ensures
        s@ == k@,
{
    string_from_str(k)
}

/// The key/value pairs that a save writes to the app-state store.
pub fn app_state_entries(snapshot: &SessionStateSnapshot) -> (entries: Vec<(String, String)>)
    ensures
        entries@.map_values(|e: (String, String)| (e.0@, e.1@)) == state_entries(
            snapshot.active_tab_index,
            snapshot.sidebar_visible,
            snapshot.tree_selected_index,
            snapshot.collapsed_repo_ids@,
        ),
{
    let mut entries: Vec<(String, String)> = Vec::new();
    let k1 = "active_tab_index";
    let k2 = "sidebar_visible";
    let k3 = "tree_selected_index";
    let k4 = "tree_collapsed_repos";
    proof {
        reveal_strlit("active_tab_index");
        reveal_strlit("sidebar_visible");
        reveal_strlit("tree_selected_index");
        reveal_strlit("tree_collapsed_repos");
    }
    let mut v1 = String::new();
    push_decimal(&mut v1, snapshot.active_tab_index);
    assert(v1@ =~= decimal(snapshot.active_tab_index as nat));
    entries.push((key_text(k1), v1));
    entries.push((key_text(k2), text_of_bool(snapshot.sidebar_visible)));
    let mut v3 = String::new();
    push_decimal(&mut v3, snapshot.tree_selected_index);
    assert(v3@ =~= decimal(snapshot.tree_selected_index as nat));
    entries.push((key_text(k3), v3));
    entries.push((key_text(k4), collapsed_repos_text(&snapshot.collapsed_repo_ids)));
    assert(entries@.map_values(|e: (String, String)| (e.0@, e.1@)) =~= state_entries(
        snapshot.active_tab_index,
        snapshot.sidebar_visible,
        snapshot.tree_selected_index,
        snapshot.collapsed_repo_ids@,
    ));
    entries
}

// ---------------------------------------------------------------------------
// What a save reports
// ---------------------------------------------------------------------------

/// What each write of a save came to: whether the two stores were open, the
/// tab rows that failed (tab index and error text), and the error text of
/// each app-state write that failed.
pub struct SaveOutcome {
    pub tab_store_available: bool,
    pub state_store_available: bool,
    pub tab_failures: Vec<(i32, String)>,
    pub active_tab_error: Option<String>,
    pub sidebar_error: Option<String>,
    pub tree_selection_error: Option<String>,
    pub collapsed_error: Option<String>,
}

/// The warning for a failed tab row.
pub open spec fn tab_failure_text(index: i32, err: Seq<char>) -> Seq<char> {
    "Failed to save session tab at index "@ + signed_decimal(index as int) + ": "@ + err
}

/// `prefix` followed by the error text, when there is one.
pub open spec fn failure_line(prefix: Seq<char>, err: Option<Seq<char>>) -> Seq<Seq<char>> {
    match err {
        Some(e) => seq![prefix + e],
        None => Seq::empty(),
    }
}

/// The warnings of a save, in the order the writes happen.
pub open spec fn save_messages(
    tab_store: bool,
    state_store: bool,
    tab_failures: Seq<(i32, Seq<char>)>,
    active: Option<Seq<char>>,
    sidebar: Option<Seq<char>>,
    tree: Option<Seq<char>>,
    collapsed: Option<Seq<char>>,
) -> Seq<Seq<char>> {
    if !tab_store {
        seq!["Session tab DAO unavailable; skipping session persistence"@]
    } else if !state_store {
        seq!["App state DAO unavailable; skipping session persistence"@]
    } else {
        tab_failures.map_values(|f: (i32, Seq<char>)| tab_failure_text(f.0, f.1))
            + failure_line("Failed to save active tab index: "@, active)
            + failure_line("Failed to save sidebar visibility: "@, sidebar)
            + failure_line("Failed to save tree selection: "@, tree)
            + failure_line("Failed to save collapsed repos: "@, collapsed)
    }
}

pub open spec fn opt_view(o: Option<String>) -> Option<Seq<char>> {
    match o {
        Some(s) => Some(s@),
        None => None,
    }
}

fn push_failure(report: &mut SessionPersistenceReport, prefix: &str, err: &Option<String>)
    ensures
        final(report).messages() == old(report).messages() + failure_line(prefix@, opt_view(*err)),
{
    match err {
        Some(e) => {
            let mut m = string_from_str(prefix);
            push_str(&mut m, e.as_str());
            report.push(m);
        },
        None => {
            assert(old(report).messages() + Seq::<Seq<char>>::empty() =~= old(report).messages());
        },
    }
}

/// The report of a save, built from what each of its writes came to.
pub fn save_report(outcome: &SaveOutcome) -> (report: SessionPersistenceReport)
    ensures
        report.messages() == save_messages(
            outcome.tab_store_available,
            outcome.state_store_available,
            outcome.tab_failures@.map_values(|f: (i32, String)| (f.0, f.1@)),
            opt_view(outcome.active_tab_error),
            opt_view(outcome.sidebar_error),
            opt_view(outcome.tree_selection_error),
            opt_view(outcome.collapsed_error),
        ),
{
    let mut report = SessionPersistenceReport::new();
    if !outcome.tab_store_available {
        let t = "Session tab DAO unavailable; skipping session persistence";
        proof {
            reveal_strlit("Session tab DAO unavailable; skipping session persistence");
        }
        report.push(string_from_str(t));
        assert(report.messages() =~= seq![t@]);
        return report;
    }
    if !outcome.state_store_available {
        let t = "App state DAO unavailable; skipping session persistence";
        proof {
            reveal_strlit("App state DAO unavailable; skipping session persistence");
        }
        report.push(string_from_str(t));
        assert(report.messages() =~= seq![t@]);
        return report;
    }
    let ghost failures = outcome.tab_failures@.map_values(|f: (i32, String)| (f.0, f.1@));
    let prefix = "Failed to save session tab at index ";
    let sep = ": ";
    proof {
        reveal_strlit("Failed to save session tab at index ");
        reveal_strlit(": ");
    }
    let mut i: usize = 0;
    while i < outcome.tab_failures.len()
        invariant
            i <= outcome.tab_failures.len(),
            failures == outcome.tab_failures@.map_values(|f: (i32, String)| (f.0, f.1@)),
            prefix@ == "Failed to save session tab at index "@,
            sep@ == ": "@,
            report.messages() == failures.take(i as int).map_values(
                |f: (i32, Seq<char>)| tab_failure_text(f.0, f.1),
            ),
        decreases outcome.tab_failures.len() - i,
    {
        let (index, err) = (outcome.tab_failures[i].0, &outcome.tab_failures[i].1);
        let mut m = string_from_str(prefix);
        push_i32_decimal(&mut m, index);
        push_str(&mut m, sep);
        push_str(&mut m, err.as_str());
        let ghost before = report.messages();
        report.push(m);
        proof {
            assert(failures[i as int] == (index, err@));
            assert(failures.take(i + 1) =~= failures.take(i as int).push(failures[i as int]));
            assert(report.messages() =~= failures.take(i + 1).map_values(
                |f: (i32, Seq<char>)| tab_failure_text(f.0, f.1),
            ));
        }
        i = i + 1;
    }
    assert(failures.take(i as int) =~= failures);
    let p1 = "Failed to save active tab index: ";
    let p2 = "Failed to save sidebar visibility: ";
    let p3 = "Failed to save tree selection: ";
    let p4 = "Failed to save collapsed repos: ";
    proof {
        reveal_strlit("Failed to save active tab index: ");
        reveal_strlit("Failed to save sidebar visibility: ");
        reveal_strlit("Failed to save tree selection: ");
        reveal_strlit("Failed to save collapsed repos: ");
    }
    push_failure(&mut report, p1, &outcome.active_tab_error);
    push_failure(&mut report, p2, &outcome.sidebar_error);
    push_failure(&mut report, p3, &outcome.tree_selection_error);
    push_failure(&mut report, p4, &outcome.collapsed_error);
    report
}


// ---------------------------------------------------------------------------
// Reading the saved state back
// ---------------------------------------------------------------------------

/// The tab to activate on start-up: the saved index, read as a `usize` and
/// clamped to the last tab, when there is a tab and the value reads.
pub open spec fn restored_active_tab(value: Option<Seq<char>>, tab_count: nat) -> Option<usize> {
    match value {
        Some(t) => match parsed_usize(t) {
            Some(i) => if tab_count > 0 {
                Some(if i < tab_count - 1 { i } else { (tab_count - 1) as usize })
            } else {
                None
            },
            None => None,
        },
        None => None,
    }
}

/// The saved sidebar visibility, when one was saved: visible exactly when the
/// stored text is `true`.
pub open spec fn restored_sidebar(value: Option<Seq<char>>, current: bool) -> bool {
    match value {
        Some(t) => t == "true"@,
        None => current,
    }
}

/// The saved tree selection read back and clamped to the last visible node
/// (to 0 when nothing is visible).
pub open spec fn restored_tree_selection(value: Option<Seq<char>>, visible_count: nat) -> Option<
    usize,
> {
    match value {
        Some(t) => match parsed_usize(t) {
            Some(i) => {
                let last: int = if visible_count == 0 { 0 } else { visible_count - 1 };
                Some(if i < last { i } else { last as usize })
            },
            None => None,
        },
        None => None,
    }
}

/// The identifiers read from the pieces of the stored text, skipping pieces
/// that do not read as an identifier.
pub open spec fn ids_from_parts(parts: Seq<Seq<char>>) -> Seq<u128>
    decreases parts.len(),
{
    if parts.len() == 0 {
        Seq::empty()
    } else {
        let r = ids_from_parts(parts.drop_last());
        match parsed_uuid(parts.last()) {
            Some(v) => r.push(v),
            None => r,
        }
    }
}

/// The repositories to collapse on start-up.
pub open spec fn restored_collapsed(value: Option<Seq<char>>) -> Seq<u128> {
    match value {
        Some(t) => if t.len() == 0 {
            Seq::empty()
        } else {
            ids_from_parts(split_on(t, ','))
        },
        None => Seq::empty(),
    }
}

pub open spec fn str_view(o: Option<&str>) -> Option<Seq<char>> {
    match o {
        Some(s) => Some(s@),
        None => None,
    }
}

/// How start-up restores the last session state.
#[derive(PartialEq, Eq, Structural, Clone, Copy, Debug)]
pub enum RestoreStart {
    /// No project yet: show the first-time splash.
    Splash,
    /// The stores cannot be read: start without restoring.
    Skip,
    /// Projects but no saved tabs: let the user pick a workspace in the
    /// sidebar.
    Sidebar,
    /// Restore the saved tabs.
    RestoreTabs,
}

pub open spec fn restore_start(repo_count: usize, stores_available: bool, saved_tabs: Option<usize>) -> RestoreStart {
    if repo_count == 0 {
        RestoreStart::Splash
    } else if !stores_available {
        RestoreStart::Skip
    } else {
        match saved_tabs {
            None => RestoreStart::Skip,
            Some(0) => RestoreStart::Sidebar,
            Some(_) => RestoreStart::RestoreTabs,
        }
    }
}

/// Decides how start-up restores state: `saved_tabs` is the number of saved
/// tabs, or none when they could not be loaded.
pub fn plan_restore(repo_count: usize, stores_available: bool, saved_tabs: Option<usize>) -> (r: RestoreStart)
    ensures
        r == restore_start(repo_count, stores_available, saved_tabs),
{
    if repo_count == 0 {
        RestoreStart::Splash
    } else if !stores_available {
        RestoreStart::Skip
    } else {
        match saved_tabs {
            None => RestoreStart::Skip,
            Some(0) => RestoreStart::Sidebar,
            Some(_) => RestoreStart::RestoreTabs,
        }
    }
}

/// The tab to activate after restoring `tab_count` tabs.
pub fn restore_active_tab_index(value: Option<&str>, tab_count: usize) -> (r: Option<usize>)
    ensures
        r == restored_active_tab(str_view(value), tab_count as nat),
{
    match value {
        Some(t) => match parse_usize(t) {
            Some(i) => if tab_count > 0 {
                let max_index = tab_count - 1;
                Some(if i < max_index { i } else { max_index })
            } else {
                None
            },
            None => None,
        },
        None => None,
    }
}

/// The sidebar visibility after start-up.
pub fn restore_sidebar_visible(value: Option<&str>, current: bool) -> (b: bool)
    ensures
        b == restored_sidebar(str_view(value), current),
{
    match value {
        Some(t) => {
            let lit = "true";
            proof {
                reveal_strlit("true");
            }
            text_equals(t, lit)
        },
        None => current,
    }
}

/// The tree selection after the collapsed repositories are restored.
pub fn restore_tree_selection(value: Option<&str>, visible_count: usize) -> (r: Option<usize>)
    ensures
        r == restored_tree_selection(str_view(value), visible_count as nat),
{
    match value {
        Some(t) => match parse_usize(t) {
            Some(i) => {
                let last: usize = if visible_count == 0 { 0 } else { visible_count - 1 };
                Some(if i < last { i } else { last })
            },
            None => None,
        },
        None => None,
    }
}

proof fn lemma_hex_digits_no_comma(v: nat, n: nat)
    ensures
        !hex_digits(v, n).contains(','),
        hex_digits(v, n).len() == n,
    decreases n,
{
    if n > 0 {
        lemma_hex_digits_no_comma(v / 16, (n - 1) as nat);
        let h = hex_digits(v, n);
        assert forall|k: int| 0 <= k < h.len() implies h[k] != ',' by {
            if k < n - 1 {
                assert(h[k] == hex_digits(v / 16, (n - 1) as nat)[k]);
            }
        }
    }
}

proof fn lemma_uuid_text_no_comma(id: u128)
    ensures
        !hyphenated_uuid(id).contains(','),
{
    lemma_hex_digits_no_comma(id as nat, 32);
    let t = hyphenated_uuid(id);
    let h = hex_digits(id as nat, 32);
    assert forall|k: int| 0 <= k < t.len() implies t[k] != ',' by {
        if k < 8 {
            assert(t[k] == h[k]);
        } else if k == 8 || k == 13 || k == 18 || k == 23 {
        } else if k < 13 {
            assert(t[k] == h[k - 1]);
        } else if k < 18 {
            assert(t[k] == h[k - 2]);
        } else if k < 23 {
            assert(t[k] == h[k - 3]);
        } else {
            assert(t[k] == h[k - 4]);
        }
    }
}

proof fn lemma_ids_from_texts(ids: Seq<u128>)
    requires
        forall|j: int| 0 <= j < ids.len() ==> parsed_uuid(hyphenated_uuid(#[trigger] ids[j])) == Some(ids[j]),
    ensures
        ids_from_parts(ids.map_values(|id: u128| hyphenated_uuid(id))) == ids,
    decreases ids.len(),
{
    if ids.len() > 0 {
        let parts = ids.map_values(|id: u128| hyphenated_uuid(id));
        assert(parts.drop_last() =~= ids.drop_last().map_values(|id: u128| hyphenated_uuid(id)));
        lemma_ids_from_texts(ids.drop_last());
        assert(parts.last() == hyphenated_uuid(ids.last()));
        assert(parsed_uuid(hyphenated_uuid(ids[ids.len() - 1])) == Some(ids[ids.len() - 1]));
        assert(ids.drop_last().push(ids.last()) =~= ids);
    }
}

/// The repositories to collapse on start-up. The stored text of a list of
/// identifiers reads back as that list.
pub fn restore_collapsed_repo_ids(value: Option<&str>) -> (r: Vec<u128>)
    ensures
        r@ == restored_collapsed(str_view(value)),
        forall|ids: Seq<u128>| str_view(value) == Some(collapsed_text(ids)) ==> r@ == ids,
{
    match value {
        None => Vec::new(),
        Some(t) => {
            let tc = chars_of(t);
            if tc.len() == 0 {
                proof {
                    assert(t@.len() == 0);
                    assert forall|ids: Seq<u128>| str_view(value) == Some(collapsed_text(ids)) implies Seq::<u128>::empty() == ids by {
                        if ids.len() > 0 {
                            let parts = ids.map_values(|id: u128| hyphenated_uuid(id));
                            lemma_join_len(parts, ',');
                            lemma_hex_digits_no_comma(ids[0] as nat, 32);
                        }
                    }
                }
                return Vec::new();
            }
            let parts = split_text(t, ',');
            let ghost pv = parts@.map_values(|p: String| p@);
            let mut out: Vec<u128> = Vec::new();
            let mut i: usize = 0;
            while i < parts.len()
                invariant
                    i <= parts.len(),
                    pv == parts@.map_values(|p: String| p@),
                    out@ == ids_from_parts(pv.take(i as int)),
                    forall|j: int, v: u128| #![trigger pv[j], hyphenated_uuid(v)] 0 <= j < i && pv[j] == hyphenated_uuid(v) ==> parsed_uuid(pv[j]) == Some(v),
                decreases parts.len() - i,
            {
                let got = parse_uuid(parts[i].as_str());
                proof {
                    assert(pv.take(i + 1).drop_last() =~= pv.take(i as int));
                    assert(pv.take(i + 1).last() == pv[i as int]);
                }
                match got {
                    Some(v) => {
                        out.push(v);
                    },
                    None => {},
                }
                i = i + 1;
            }
            proof {
                assert(pv.take(i as int) =~= pv);
                assert forall|ids: Seq<u128>| str_view(value) == Some(collapsed_text(ids)) implies out@ == ids by {
                    let texts = ids.map_values(|id: u128| hyphenated_uuid(id));
                    if ids.len() == 0 {
                        assert(t@.len() == 0);
                    } else {
                        assert forall|k: int| 0 <= k < texts.len() implies !(#[trigger] texts[k]).contains(',') by {
                            lemma_uuid_text_no_comma(ids[k]);
                        }
                        lemma_split_join(texts, ',');
                        assert(pv == texts);
                        assert forall|j: int| 0 <= j < ids.len() implies parsed_uuid(hyphenated_uuid(#[trigger] ids[j])) == Some(ids[j]) by {
                            assert(pv[j] == hyphenated_uuid(ids[j]));
                        }
                        lemma_ids_from_texts(ids);
                    }
                }
            }
            out
        },
    }
}

proof fn lemma_join_len(xs: Seq<Seq<char>>, sep: char)
    requires
        xs.len() >= 1,
    ensures
        join_on(xs, sep).len() >= xs[0].len(),
{
}

/// Reading back what a save wrote restores the saved tab, sidebar visibility
/// and tree selection, as long as the saved tab and node still exist.
pub proof fn lemma_saved_state_reads_back(
    active_tab_index: usize,
    sidebar_visible: bool,
    tree_selected_index: usize,
    collapsed: Seq<u128>,
    tab_count: nat,
    visible_count: nat,
)
    requires
        active_tab_index < tab_count,
        tree_selected_index < visible_count,
    ensures
        ({
            let e = state_entries(active_tab_index, sidebar_visible, tree_selected_index, collapsed);
            &&& restored_active_tab(Some(e[0].1), tab_count) == Some(active_tab_index)
            &&& restored_sidebar(Some(e[1].1), !sidebar_visible) == sidebar_visible
            &&& restored_tree_selection(Some(e[2].1), visible_count) == Some(tree_selected_index)
        }),
{
    lemma_parse_decimal(active_tab_index);
    lemma_parse_decimal(tree_selected_index);
    reveal_strlit("true");
    reveal_strlit("false");
    assert("false"@ != "true"@) by {
        assert("false"@.len() != "true"@.len());
    }
}

} // verus!


