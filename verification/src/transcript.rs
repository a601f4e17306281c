//! Rewinding a stream-JSON session transcript: the lines of the last user turn
//! and everything after it are dropped from the session file.
use vstd::prelude::*;
use crate::json::{json_bool_field, json_flag_field, json_str_field, json_text_field};
use crate::persistence::{join_on, split_on, split_text};
use crate::text::{chars_of, join_texts, join_with, push_str, string_from_chars, string_from_str, views};

verus! {

/// A line without one trailing carriage return.
pub open spec fn strip_cr(l: Seq<char>) -> Seq<char> {
    if l.len() > 0 && l.last() == '\r' {
        l.drop_last()
    } else {
        l
    }
}

/// The lines of a text as `str::lines` gives them: split at `\n`, a `\r`
/// before the `\n` dropped, and no empty line after a final `\n`.
pub open spec fn text_lines(s: Seq<char>) -> Seq<Seq<char>> {
    let parts = split_on(s, '\n');
    let body = parts.drop_last().map_values(|p: Seq<char>| strip_cr(p));
    if parts.last().len() > 0 {
        body.push(parts.last())
    } else {
        body
    }
}

fn strip_cr_text(s: String) -> (r: String)
    ensures
        r@ == strip_cr(s@),
{
    let cs = chars_of(s.as_str());
    if cs.len() > 0 && cs[cs.len() - 1] == '\r' {
        crate::text::string_from_prefix(cs.as_slice(), cs.len() - 1)
    } else {
        s
    }
}

/// Splits a text into lines as `str::lines` does.
pub fn lines_of(s: &str) -> (r: Vec<String>)
    ensures
        views(r@) == text_lines(s@),
{
    let parts = split_text(s, '\n');
    let ghost pv = parts@.map_values(|p: String| p@);
    proof {
        crate::persistence::lemma_split_parts_nonempty(s@, '\n');
    }
    let n = parts.len();
    let mut out: Vec<String> = Vec::new();
    let mut i: usize = 0;
    while i + 1 < n
        invariant
            n == parts.len(),
            n >= 1,
            i + 1 <= n,
            pv == parts@.map_values(|p: String| p@),
            views(out@) == pv.take(i as int).map_values(|p: Seq<char>| strip_cr(p)),
        decreases n - i,
    {
        let line = strip_cr_text(parts[i].clone());
        let ghost before = views(out@);
        out.push(line);
        proof {
            assert(views(out@) =~= before.push(strip_cr(pv[i as int])));
            assert(pv.take(i + 1) =~= pv.take(i as int).push(pv[i as int]));
            assert(pv.take(i + 1).map_values(|p: Seq<char>| strip_cr(p)) =~= pv.take(i as int).map_values(|p: Seq<char>| strip_cr(p)).push(strip_cr(pv[i as int])));
        }
        i = i + 1;
    }
    proof {
        assert(pv.take(i as int) =~= pv.drop_last());
    }
    let last = &parts[n - 1];
    if chars_of(last.as_str()).len() > 0 {
        let ghost before = views(out@);
        out.push(last.clone());
        assert(views(out@) =~= before.push(pv.last()));
    }
    out
}

/// Whether a transcript line records a turn typed by the user: a JSON object
/// whose `type` is `user` and whose `isMeta` is not `true`.
pub open spec fn user_turn_line(line: Seq<char>) -> bool {
    json_str_field(line, "type"@) == Some("user"@) && json_bool_field(line, "isMeta"@) != Some(true)
}

/// Tells whether a transcript line records a turn typed by the user.
pub fn is_user_turn_line(line: &str) -> (b: bool)
    ensures
        b == user_turn_line(line@),
{
    let ty = "type";
    let meta = "isMeta";
    let user = "user";
    proof {
        reveal_strlit("type");
        reveal_strlit("isMeta");
        reveal_strlit("user");
    }
    let t = json_text_field(line, ty);
    let is_user = match t {
        Some(v) => crate::text::text_equals(v.as_str(), user),
        None => false,
    };
    if !is_user {
        return false;
    }
    let m = json_flag_field(line, meta);
    match m {
        Some(true) => false,
        _ => true,
    }
}

/// The index of the last user turn among the lines.
pub open spec fn last_user_turn(lines: Seq<Seq<char>>) -> Option<nat>
    decreases lines.len(),
{
    if lines.len() == 0 {
        None
    } else if user_turn_line(lines.last()) {
        Some((lines.len() - 1) as nat)
    } else {
        last_user_turn(lines.drop_last())
    }
}

/// The transcript without its last user turn and what follows it: the
/// earlier lines joined by `\n`, with a final `\n` when any remain. Nothing
/// changes when the transcript has no user turn.
pub open spec fn rewound_transcript(content: Seq<char>) -> Option<Seq<char>> {
    let ls = text_lines(content);
    match last_user_turn(ls) {
        None => None,
        Some(i) => {
            let j = join_with(ls.take(i as int), "\n"@);
            Some(if j.len() == 0 { j } else { j + "\n"@ })
        },
    }
}

proof fn lemma_last_user_turn_bound(lines: Seq<Seq<char>>)
    ensures
        last_user_turn(lines) matches Some(i) ==> i < lines.len(),
    decreases lines.len(),
{
    if lines.len() > 0 && !user_turn_line(lines.last()) {
        lemma_last_user_turn_bound(lines.drop_last());
    }
}

/// The rewound transcript, or `None` when it has no user turn to drop.
pub fn rewind_transcript(content: &str) -> (r: Option<String>)
    ensures
        match r {
            Some(t) => rewound_transcript(content@) == Some(t@),
            None => rewound_transcript(content@).is_none(),
        },
{
    let lines = lines_of(content);
    let ghost lv = views(lines@);
    let mut k: usize = lines.len();
    let mut found: Option<usize> = None;
    assert(lv.take(k as int) =~= lv);
    while k > 0
        invariant_except_break
            found.is_none(),
        invariant
            k <= lines.len(),
            lv == views(lines@),
            last_user_turn(lv) == last_user_turn(lv.take(k as int)),
        ensures
            found matches Some(f) ==> last_user_turn(lv) == Some(f as nat) && f < lines.len(),
            found is None ==> k == 0 && last_user_turn(lv) == last_user_turn(lv.take(0)),
        decreases k,
    {
        proof {
            assert(lv.take(k as int).last() == lines@[k - 1]@);
            assert(lv.take(k as int).drop_last() =~= lv.take(k - 1));
        }
        if is_user_turn_line(lines[k - 1].as_str()) {
            found = Some(k - 1);
            break;
        }
        k = k - 1;
    }
    proof {
        if found.is_none() {
            assert(lv.take(0) =~= Seq::<Seq<char>>::empty());
        }
    }
    match found {
        None => None,
        Some(idx) => {
            proof {
                lemma_last_user_turn_bound(lv);
            }
            let mut kept: Vec<String> = Vec::new();
            let mut i: usize = 0;
            while i < idx
                invariant
                    i <= idx,
                    idx < lines.len(),
                    lv == views(lines@),
                    views(kept@) == lv.take(i as int),
                decreases idx - i,
            {
                let item = lines[i].clone();
                let ghost before = views(kept@);
                kept.push(item);
                assert(views(kept@) =~= before.push(lv[i as int]));
                assert(lv.take(i + 1) =~= lv.take(i as int).push(lv[i as int]));
                i = i + 1;
            }
            let nl = "\n";
            proof {
                reveal_strlit("\n");
            }
            let mut j = join_texts(&kept, nl);
            if chars_of(j.as_str()).len() > 0 {
                push_str(&mut j, nl);
            }
            Some(j)
        },
    }
}

proof fn lemma_split_pieces_lack_sep(s: Seq<char>, sep: char)
    ensures
        forall|i: int| 0 <= i < split_on(s, sep).len() ==> !(#[trigger] split_on(s, sep)[i]).contains(sep),
    decreases s.len(),
{
    if s.len() > 0 {
        let t = s.drop_first();
        lemma_split_pieces_lack_sep(t, sep);
        crate::persistence::lemma_split_parts_nonempty(t, sep);
        let rest = split_on(t, sep);
        let all = split_on(s, sep);
        assert forall|i: int| 0 <= i < all.len() implies !(#[trigger] all[i]).contains(sep) by {
            if s[0] == sep {
                if i > 0 {
                    assert(all[i] == rest[i - 1]);
                } else {
                    assert(all[0] =~= Seq::<char>::empty());
                }
            } else if i == 0 {
                let p = seq![s[0]] + rest[0];
                assert(all[0] == p);
                if p.contains(sep) {
                    let k = choose|k: int| 0 <= k < p.len() && p[k] == sep;
                    if k > 0 {
                        assert(rest[0][k - 1] == sep);
                        assert(rest[0].contains(sep));
                    }
                }
            } else {
                assert(all[i] == rest[i]);
            }
        }
    }
}

/// A line never holds a line break.
proof fn lemma_lines_lack_newline(s: Seq<char>)
    ensures
        forall|i: int| 0 <= i < text_lines(s).len() ==> !(#[trigger] text_lines(s)[i]).contains('\n'),
{
    let parts = split_on(s, '\n');
    lemma_split_pieces_lack_sep(s, '\n');
    crate::persistence::lemma_split_parts_nonempty(s, '\n');
    let ls = text_lines(s);
    assert forall|i: int| 0 <= i < ls.len() implies !(#[trigger] ls[i]).contains('\n') by {
        if i < parts.len() - 1 {
            let p = parts[i];
            assert(ls[i] == strip_cr(p));
            if strip_cr(p).contains('\n') {
                let k = choose|k: int| 0 <= k < strip_cr(p).len() && strip_cr(p)[k] == '\n';
                assert(p[k] == '\n');
                assert(p.contains('\n'));
            }
        } else {
            assert(ls[i] == parts.last());
            assert(parts.last() == parts[parts.len() - 1]);
        }
    }
}

/// Joining with a one-character separator, taken from either end, gives the
/// same text.
proof fn lemma_join_last(xs: Seq<Seq<char>>, c: char)
    requires
        xs.len() >= 2,
    ensures
        join_on(xs, c) == join_on(xs.drop_last(), c) + seq![c] + xs.last(),
    decreases xs.len(),
{
    if xs.len() > 2 {
        let t = xs.drop_first();
        let d = xs.drop_last();
        lemma_join_last(t, c);
        assert(t.drop_last() =~= d.drop_first());
        assert(t.last() == xs.last());
        assert(d[0] == xs[0]);
        assert(join_on(xs, c) == xs[0] + seq![c] + join_on(t, c));
        assert(join_on(d, c) == d[0] + seq![c] + join_on(d.drop_first(), c));
        assert(xs[0] + seq![c] + (join_on(t.drop_last(), c) + seq![c] + t.last()) =~= (xs[0] + seq![c]
            + join_on(t.drop_last(), c)) + seq![c] + t.last());
    } else {
        assert(xs.drop_first().len() == 1);
        assert(xs.drop_last().len() == 1);
        assert(xs.drop_first()[0] == xs.last());
        assert(xs.drop_last()[0] == xs[0]);
        assert(join_on(xs.drop_first(), c) == xs.last());
        assert(join_on(xs.drop_last(), c) == xs[0]);
        assert(join_on(xs, c) == xs[0] + seq![c] + join_on(xs.drop_first(), c));
    }
}

proof fn lemma_join_with_char(xs: Seq<Seq<char>>, c: char)
    ensures
        join_with(xs, seq![c]) == join_on(xs, c),
    decreases xs.len(),
{
    if xs.len() >= 2 {
        lemma_join_with_char(xs.drop_last(), c);
        lemma_join_last(xs, c);
    }
}

/// Reading back a rewound transcript gives exactly the lines before the
/// last user turn, as long as none of them ends with a carriage return
/// (reading drops one) and they are not one empty line (which is written as
/// nothing).
pub proof fn lemma_rewound_transcript_reads_back(content: Seq<char>)
    requires
        last_user_turn(text_lines(content)) is Some,
        forall|k: int| 0 <= k < last_user_turn(text_lines(content)).unwrap() ==> !(#[trigger] text_lines(content)[k] matches l && l.len() > 0 && l.last() == '\r'),
        !(last_user_turn(text_lines(content)).unwrap() == 1 && text_lines(content)[0].len() == 0),
    ensures
        text_lines(rewound_transcript(content).unwrap()) == text_lines(content).take(
            last_user_turn(text_lines(content)).unwrap() as int,
        ),
{
    let ls = text_lines(content);
    lemma_last_user_turn_bound(ls);
    lemma_lines_lack_newline(content);
    let i = last_user_turn(ls).unwrap();
    let kept = ls.take(i as int);
    reveal_strlit("\n");
    assert("\n"@ =~= seq!['\n']);
    lemma_join_with_char(kept, '\n');
    let j = join_with(kept, "\n"@);
    if kept.len() == 0 {
        assert(j =~= Seq::<char>::empty());
        let parts = split_on(Seq::<char>::empty(), '\n');
        assert(parts =~= seq![Seq::<char>::empty()]);
        assert(text_lines(Seq::<char>::empty()) =~= kept);
    } else {
        if kept.len() == 1 {
            assert(j == kept[0]);
            assert(kept[0] == ls[0]);
        } else {
            lemma_join_last(kept, '\n');
        }
        assert(j.len() > 0);
        let pieces = kept.push(Seq::<char>::empty());
        lemma_join_last(pieces, '\n');
        assert(pieces.drop_last() =~= kept);
        assert(join_on(pieces, '\n') =~= j + "\n"@);
        assert forall|k: int| 0 <= k < pieces.len() implies !(#[trigger] pieces[k]).contains('\n') by {
            if k < kept.len() {
                assert(pieces[k] == ls[k]);
            } else {
                assert(pieces[k] =~= Seq::<char>::empty());
            }
        }
        crate::persistence::lemma_split_join(pieces, '\n');
        let r = j + "\n"@;
        let parts = split_on(r, '\n');
        assert(parts == pieces);
        assert(parts.drop_last() =~= kept);
        assert(parts.drop_last().map_values(|p: Seq<char>| strip_cr(p)) =~= kept) by {
            assert forall|k: int| 0 <= k < kept.len() implies strip_cr(#[trigger] kept[k]) == kept[k] by {
                assert(kept[k] == ls[k]);
            }
        }
        assert(parts.last().len() == 0);
    }
}

/// The directory name the agent keeps a project's sessions under: the working
/// directory with every `/` turned into `-`.
pub open spec fn project_dir_name(path: Seq<char>) -> Seq<char> {
    path.map_values(|c: char| if c == '/' { '-' } else { c })
}

/// Encodes a working directory as the agent's project directory name.
pub fn encode_project_dir(path: &str) -> (r: String)
    ensures
        r@ == project_dir_name(path@),
{
    let cs = chars_of(path);
    let mut out: Vec<char> = Vec::new();
    let mut i: usize = 0;
    while i < cs.len()
        invariant
            i <= cs.len(),
            cs@ == path@,
            out@ == path@.take(i as int).map_values(|c: char| if c == '/' { '-' } else { c }),
        decreases cs.len() - i,
    {
        let c = cs[i];
        out.push(if c == '/' { '-' } else { c });
        i = i + 1;
        assert(out@ =~= path@.take(i as int).map_values(|c: char| if c == '/' { '-' } else { c }));
    }
    assert(path@.take(cs.len() as int) =~= path@);
    string_from_chars(out.as_slice())
}

} // verus!
