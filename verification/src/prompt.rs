//! Text rules for prompts, titles and the answers sent back to agents.
use vstd::prelude::*;
use crate::text::{
    chars_of, char_is_space, is_space, join_texts, join_with, push_char, push_str,
    string_from_chars, string_from_prefix, string_from_str, views,
};

verus! {

/// The prompt that asks the agent for an adversarial review of the workspace.
pub open spec fn adversarial_review_text() -> Seq<char> {
    "Perform an adversarial code review of the changes in this workspace.\n\nSteps:\n1. Check for an open PR: `gh pr view --json url,number,title 2>/dev/null`\n2. If a PR exists, get the full diff: `gh pr diff`\nOtherwise get local branch changes: `git diff $(git merge-base HEAD origin/master 2>/dev/null || echo HEAD)..HEAD`\n3. Use the conduit-adversarial-review sub-agent to analyse the diff critically.\n4. Report findings by severity: CRITICAL / HIGH / MEDIUM / LOW.\n5. For every CRITICAL or HIGH finding, offer to fix it immediately."@
}

/// The prompt of the `/adversarial-review` command.
pub fn build_adversarial_review_prompt() -> (s: String)
    ensures
        s@ == adversarial_review_text(),
{
    let t = "Perform an adversarial code review of the changes in this workspace.\n\nSteps:\n1. Check for an open PR: `gh pr view --json url,number,title 2>/dev/null`\n2. If a PR exists, get the full diff: `gh pr diff`\nOtherwise get local branch changes: `git diff $(git merge-base HEAD origin/master 2>/dev/null || echo HEAD)..HEAD`\n3. Use the conduit-adversarial-review sub-agent to analyse the diff critically.\n4. Report findings by severity: CRITICAL / HIGH / MEDIUM / LOW.\n5. For every CRITICAL or HIGH finding, offer to fix it immediately.";
    string_from_str(t)
}

// ---------------------------------------------------------------------------
// Titles
// ---------------------------------------------------------------------------

/// The words of `s` (its runs of non-white-space characters) joined by single
/// spaces. `started` says whether a word was already written and `pending`
/// whether white space followed it.
pub open spec fn squeeze(s: Seq<char>, started: bool, pending: bool) -> Seq<char>
    decreases s.len(),
{
    if s.len() == 0 {
        Seq::empty()
    } else if is_space(s[0]) {
        squeeze(s.drop_first(), started, started)
    } else {
        (if pending {
            seq![' ', s[0]]
        } else {
            seq![s[0]]
        }) + squeeze(s.drop_first(), true, false)
    }
}

/// The longest title kept, in characters.
pub open spec fn max_title_chars() -> nat {
    200
}

/// The title used when nothing printable is left.
pub open spec fn untitled_text() -> Seq<char> {
    "Untitled task"@
}

/// A generated title made fit for display: white space collapsed to single
/// spaces and trimmed, cut to 200 characters, and a fixed title when nothing
/// is left.
pub open spec fn sanitized_title(s: Seq<char>) -> Seq<char> {
    let c = squeeze(s, false, false);
    if c.len() == 0 {
        untitled_text()
    } else if c.len() > max_title_chars() {
        c.take(max_title_chars() as int)
    } else {
        c
    }
}

/// Collapses white space runs of a title, bounds its length and falls back
/// to a fixed title when it is blank.
pub fn sanitize_title(title: &str) -> (s: String)
    ensures
        s@ == sanitized_title(title@),
        0 < s@.len() <= max_title_chars(),
{
    let cs = chars_of(title);
    let mut out: Vec<char> = Vec::new();
    let mut started = false;
    let mut pending = false;
    let mut i: usize = 0;
    proof {
        assert(title@.skip(0) =~= title@);
    }
    while i < cs.len()
        invariant
            i <= cs.len(),
            cs@ == title@,
            out@ + squeeze(title@.skip(i as int), started, pending) == squeeze(title@, false, false),
            pending ==> started,
        decreases cs.len() - i,
    {
        let c = cs[i];
        let ghost rest = title@.skip(i as int);
        proof {
            assert(rest.drop_first() =~= title@.skip(i + 1));
            assert(rest[0] == c);
        }
        if char_is_space(c) {
            pending = started;
        } else {
            let ghost old_out = out@;
            if pending {
                out.push(' ');
            }
            out.push(c);
            proof {
                let head = if pending { seq![' ', c] } else { seq![c] };
                assert(out@ =~= old_out + head);
                assert(old_out + (head + squeeze(title@.skip(i + 1), true, false)) =~= out@
                    + squeeze(title@.skip(i + 1), true, false));
            }
            started = true;
            pending = false;
        }
        i = i + 1;
    }
    proof {
        assert(title@.skip(i as int) =~= Seq::<char>::empty());
        assert(out@ + Seq::<char>::empty() =~= out@);
    }
    if out.len() == 0 {
        let t = "Untitled task";
        proof {
            reveal_strlit("Untitled task");
        }
        return string_from_str(t);
    }
    if out.len() > 200 {
        let cut = string_from_prefix(out.as_slice(), 200);
        return cut;
    }
    string_from_chars(out.as_slice())
}

// ---------------------------------------------------------------------------
// Queue lines
// ---------------------------------------------------------------------------

/// A queued message shown in `width` columns: unchanged when it fits,
/// otherwise cut and ended with `...`, or only dots when not even those fit.
pub open spec fn truncated_line(s: Seq<char>, width: nat) -> Seq<char> {
    if s.len() <= width {
        s
    } else if width <= 3 {
        Seq::new(width, |i: int| '.')
    } else {
        s.take(width - 3) + "..."@
    }
}

/// Fits a queued message into the given width.
pub fn truncate_queue_line(line: &str, width: usize) -> (s: String)
    ensures
        s@ == truncated_line(line@, width as nat),
        s@.len() == (if line@.len() <= width { line@.len() } else { width as nat }),
{
    let cs = chars_of(line);
    if cs.len() <= width {
        return string_from_str(line);
    }
    let mut out: Vec<char> = Vec::new();
    if width <= 3 {
        let mut i: usize = 0;
        while i < width
            invariant
                i <= width,
                out@ == Seq::new(i as nat, |k: int| '.'),
            decreases width - i,
        {
            out.push('.');
            i = i + 1;
            assert(out@ =~= Seq::new(i as nat, |k: int| '.'));
        }
        return string_from_chars(out.as_slice());
    }
    let mut s = string_from_prefix(cs.as_slice(), width - 3);
    let dots = "...";
    proof {
        reveal_strlit("...");
    }
    push_str(&mut s, dots);
    s
}

// ---------------------------------------------------------------------------
// Image placeholders
// ---------------------------------------------------------------------------

/// `s` with every occurrence of `pat` removed, matching left to right without
/// overlap (`s.replace(pat, "")`).
pub open spec fn remove_all(s: Seq<char>, pat: Seq<char>) -> Seq<char>
    decreases s.len(),
{
    if pat.len() == 0 || s.len() == 0 {
        s
    } else if s.len() >= pat.len() && s.take(pat.len() as int) == pat {
        remove_all(s.skip(pat.len() as int), pat)
    } else {
        seq![s[0]] + remove_all(s.drop_first(), pat)
    }
}

/// The prompt with each placeholder removed in turn.
pub open spec fn without_placeholders(s: Seq<char>, pats: Seq<Seq<char>>) -> Seq<char>
    decreases pats.len(),
{
    if pats.len() == 0 {
        s
    } else {
        remove_all(without_placeholders(s, pats.drop_last()), pats.last())
    }
}

/// Removing placeholders in two runs is removing them in one: the list
/// `ps` then the list `qs` is the list `ps + qs`; and removing a single
/// placeholder is removing all of its occurrences.
pub proof fn lemma_placeholders_compose(s: Seq<char>, ps: Seq<Seq<char>>, qs: Seq<Seq<char>>, p: Seq<char>)
    ensures
        without_placeholders(s, ps + qs) == without_placeholders(without_placeholders(s, ps), qs),
        without_placeholders(s, seq![p]) == remove_all(s, p),
    decreases qs.len(),
{
    assert(seq![p].drop_last() =~= Seq::<Seq<char>>::empty());
    assert(without_placeholders(s, seq![p].drop_last()) == s);
    assert(seq![p].last() == p);
    if qs.len() == 0 {
        assert(ps + qs =~= ps);
    } else {
        lemma_placeholders_compose(s, ps, qs.drop_last(), p);
        assert((ps + qs).drop_last() =~= ps + qs.drop_last());
        assert((ps + qs).last() == qs.last());
    }
}

/// Every occurrence of a placeholder goes: one at the start is removed, and
/// after text that cannot begin one (none of its characters is the
/// placeholder's first) the text stays and the rest is cleared in turn;
/// text without the placeholder's first character is left as it is.
pub proof fn lemma_remove_all_clears(a: Seq<char>, p: Seq<char>, b: Seq<char>)
    requires
        p.len() > 0,
        forall|i: int| 0 <= i < a.len() ==> #[trigger] a[i] != p[0],
    ensures
        remove_all(p + b, p) == remove_all(b, p),
        remove_all(a + p + b, p) == a + remove_all(b, p),
        remove_all(a, p) == a,
    decreases a.len(),
{
    assert((p + b).take(p.len() as int) =~= p);
    assert((p + b).skip(p.len() as int) =~= b);
    if a.len() > 0 {
        let a1 = a.drop_first();
        assert forall|i: int| 0 <= i < a1.len() implies #[trigger] a1[i] != p[0] by {
            assert(a1[i] == a[i + 1]);
        }
        lemma_remove_all_clears(a1, p, b);
        let w = a + p + b;
        assert(w[0] == a[0]);
        if w.len() >= p.len() {
            assert(w.take(p.len() as int)[0] != p[0]);
        }
        assert(w.drop_first() =~= a1 + p + b);
        assert(seq![a[0]] + (a1 + remove_all(b, p)) =~= a + remove_all(b, p));
        if a.len() >= p.len() {
            assert(a.take(p.len() as int)[0] != p[0]);
        }
        assert(seq![a[0]] + a1 =~= a);
    }
}


/// Removes every occurrence of `pat` from `s`.
pub fn remove_all_text(s: &str, pat: &str) -> (r: String)
    ensures
        r@ == remove_all(s@, pat@),
{
    let cs = chars_of(s);
    let ps = chars_of(pat);
    if ps.len() == 0 {
        return string_from_str(s);
    }
    let mut out: Vec<char> = Vec::new();
    let mut i: usize = 0;
    proof {
        assert(s@.skip(0) =~= s@);
    }
    while i < cs.len()
        invariant
            i <= cs.len(),
            cs@ == s@,
            ps@ == pat@,
            ps@.len() > 0,
            out@ + remove_all(s@.skip(i as int), pat@) == remove_all(s@, pat@),
        decreases cs.len() - i,
    {
        let ghost rest = s@.skip(i as int);
        if crate::text::chars_match_at(&cs, i, &ps) {
            proof {
                assert(rest.skip(pat@.len() as int) =~= s@.skip(i + pat@.len()));
            }
            i = i + ps.len();
        } else {
            let ghost old_out = out@;
            out.push(cs[i]);
            proof {
                assert(rest.drop_first() =~= s@.skip(i + 1));
                assert(rest[0] == cs@[i as int]);
                assert(old_out + (seq![cs@[i as int]] + remove_all(s@.skip(i + 1), pat@)) =~= out@
                    + remove_all(s@.skip(i + 1), pat@));
            }
            i = i + 1;
        }
    }
    proof {
        assert(s@.skip(i as int) =~= Seq::<char>::empty());
        assert(out@ + Seq::<char>::empty() =~= out@);
    }
    string_from_chars(out.as_slice())
}

/// Removes the image placeholders from a prompt, for agents that receive the
/// images out of band.
pub fn strip_image_placeholders(prompt: String, placeholders: &Vec<String>) -> (r: String)
    ensures
        r@ == without_placeholders(prompt@, views(placeholders@)),
{
    let mut cur = prompt;
    let mut i: usize = 0;
    while i < placeholders.len()
        invariant
            i <= placeholders.len(),
            cur@ == without_placeholders(prompt@, views(placeholders@).take(i as int)),
        decreases placeholders.len() - i,
    {
        let next = remove_all_text(cur.as_str(), placeholders[i].as_str());
        proof {
            let ps = views(placeholders@).take(i + 1);
            assert(ps.drop_last() =~= views(placeholders@).take(i as int));
        }
        cur = next;
        i = i + 1;
    }
    assert(views(placeholders@).take(placeholders.len() as int) =~= views(placeholders@));
    cur
}


// ---------------------------------------------------------------------------
// Answers to the agent's questions
// ---------------------------------------------------------------------------

/// The user's answer to one question: one choice or several.
pub enum PromptAnswer {
    Single(String),
    Multiple(Vec<String>),
}

/// An answer as text: several choices are joined by `, `.
pub open spec fn answer_text(a: PromptAnswer) -> Seq<char> {
    match a {
        PromptAnswer::Single(t) => t@,
        PromptAnswer::Multiple(items) => join_with(views(items@), ", "@),
    }
}

/// Formats an answer for the agent.
pub fn format_prompt_answer(answer: &PromptAnswer) -> (s: String)
    ensures
        s@ == answer_text(*answer),
{
    match answer {
        PromptAnswer::Single(t) => t.clone(),
        PromptAnswer::Multiple(items) => join_texts(items, ", "),
    }
}

/// One answered question as `"question"="answer"`.
pub open spec fn answer_part(q: Seq<char>, a: PromptAnswer) -> Seq<char> {
    "\""@ + q + "\"=\""@ + answer_text(a) + "\""@
}

/// The tool result that tells the agent how the user answered its questions.
pub open spec fn ask_user_result(answers: Seq<(String, PromptAnswer)>) -> Seq<char> {
    if answers.len() == 0 {
        "User has answered your questions. You can now continue with the user's answers in mind."@
    } else {
        "User has answered your questions: "@ + join_with(
            answers.map_values(|p: (String, PromptAnswer)| answer_part(p.0@, p.1)),
            ", "@,
        ) + ". You can now continue with the user's answers in mind."@
    }
}

/// Builds the tool result text for answered questions, in the given order.
pub fn ask_user_result_text(answers: &Vec<(String, PromptAnswer)>) -> (s: String)
    ensures
        s@ == ask_user_result(answers@),
{
    proof {
        reveal_strlit("User has answered your questions. You can now continue with the user's answers in mind.");
    }
    if answers.len() == 0 {
        return string_from_str("User has answered your questions. You can now continue with the user's answers in mind.");
    }
    let mut parts: Vec<String> = Vec::new();
    let mut i: usize = 0;
    while i < answers.len()
        invariant
            i <= answers.len(),
            views(parts@) == answers@.take(i as int).map_values(|p: (String, PromptAnswer)| answer_part(p.0@, p.1)),
        decreases answers.len() - i,
    {
        let mut part = string_from_str("\"");
        push_str(&mut part, answers[i].0.as_str());
        push_str(&mut part, "\"=\"");
        let a = format_prompt_answer(&answers[i].1);
        push_str(&mut part, a.as_str());
        push_str(&mut part, "\"");
        let ghost before = views(parts@);
        parts.push(part);
        proof {
            assert(views(parts@) =~= before.push(answer_part(answers@[i as int].0@, answers@[i as int].1)));
            assert(answers@.take(i + 1) =~= answers@.take(i as int).push(answers@[i as int]));
            assert(answers@.take(i + 1).map_values(|p: (String, PromptAnswer)| answer_part(p.0@, p.1)) =~= answers@.take(i as int).map_values(|p: (String, PromptAnswer)| answer_part(p.0@, p.1)).push(answer_part(answers@[i as int].0@, answers@[i as int].1)));
        }
        i = i + 1;
    }
    assert(answers@.take(answers.len() as int) =~= answers@);
    let mut s = string_from_str("User has answered your questions: ");
    let joined = join_texts(&parts, ", ");
    push_str(&mut s, joined.as_str());
    push_str(&mut s, ". You can now continue with the user's answers in mind.");
    s
}

/// The tool result for the user's decision on a plan: an approval quotes
/// the plan and where it is saved; a rejection passes on the feedback.
pub open spec fn exit_plan_result(approved: bool, feedback: Option<Seq<char>>, plan: Seq<char>, path: Seq<char>) -> Seq<char> {
    if approved {
        "User has approved your plan. You can now start coding. Start with updating your todo list if applicable\n\nYour plan has been saved to: "@
            + path + "\nYou can refer back to it if needed during implementation.\n\n## Approved Plan:\n"@ + plan
    } else {
        match feedback {
            Some(f) => "User feedback on plan: "@ + f,
            None => "User feedback on plan."@,
        }
    }
}

/// Builds the tool result text for the user's decision on a plan, given
/// the plan and the file it is saved in.
pub fn exit_plan_result_text(approved: bool, feedback: Option<String>, plan_content: &str, plan_path: &str) -> (s: String)
    ensures
        s@ == exit_plan_result(
            approved,
            match feedback { Some(f) => Some(f@), None => None },
            plan_content@,
            plan_path@,
        ),
{
    if approved {
        let mut s = string_from_str("User has approved your plan. You can now start coding. Start with updating your todo list if applicable\n\nYour plan has been saved to: ");
        push_str(&mut s, plan_path);
        push_str(&mut s, "\nYou can refer back to it if needed during implementation.\n\n## Approved Plan:\n");
        push_str(&mut s, plan_content);
        s
    } else {
        match feedback {
            Some(f) => {
                let mut s = string_from_str("User feedback on plan: ");
                push_str(&mut s, f.as_str());
                s
            },
            None => string_from_str("User feedback on plan."),
        }
    }
}

/// The answers to a list of questions, as choices: the choices of the first
/// answer given for the question, none for an unanswered one.
pub open spec fn choices_for(q: Seq<char>, answers: Seq<(String, PromptAnswer)>) -> Seq<Seq<char>>
    decreases answers.len(),
{
    if answers.len() == 0 {
        Seq::empty()
    } else if answers[0].0@ == q {
        match answers[0].1 {
            PromptAnswer::Single(t) => seq![t@],
            PromptAnswer::Multiple(items) => views(items@),
        }
    } else {
        choices_for(q, answers.drop_first())
    }
}

fn clone_strings(v: &Vec<String>) -> (r: Vec<String>)
    ensures
        views(r@) == views(v@),
{
    let mut r: Vec<String> = Vec::new();
    let mut i: usize = 0;
    while i < v.len()
        invariant
            i <= v.len(),
            views(r@) == views(v@).take(i as int),
        decreases v.len() - i,
    {
        let item = v[i].clone();
        let ghost before = views(r@);
        r.push(item);
        assert(views(r@) =~= before.push(v@[i as int]@));
        assert(views(v@).take(i + 1) =~= views(v@).take(i as int).push(v@[i as int]@));
        i = i + 1;
    }
    assert(views(v@).take(v.len() as int) =~= views(v@));
    r
}

fn choices_of(q: &str, answers: &Vec<(String, PromptAnswer)>) -> (r: Vec<String>)
    ensures
        views(r@) == choices_for(q@, answers@),
{
    let mut i: usize = 0;
    assert(answers@.skip(0) =~= answers@);
    while i < answers.len()
        invariant
            i <= answers.len(),
            choices_for(q@, answers@) == choices_for(q@, answers@.skip(i as int)),
        decreases answers.len() - i,
    {
        assert(answers@.skip(i as int)[0] == answers@[i as int]);
        if crate::text::text_equals(answers[i].0.as_str(), q) {
            match &answers[i].1 {
                PromptAnswer::Single(t) => {
                    let mut r: Vec<String> = Vec::new();
                    r.push(t.clone());
                    assert(views(r@) =~= seq![t@]);
                    return r;
                },
                PromptAnswer::Multiple(items) => {
                    return clone_strings(items);
                },
            }
        }
        assert(answers@.skip(i as int).drop_first() =~= answers@.skip(i + 1));
        i = i + 1;
    }
    let r: Vec<String> = Vec::new();
    assert(views(r@) =~= Seq::<Seq<char>>::empty());
    r
}

/// The answers OpenCode expects: the choices for each question, in the
/// order of the questions.
pub fn opencode_question_answers(questions: &Vec<String>, answers: &Vec<(String, PromptAnswer)>) -> (r: Vec<Vec<String>>)
    ensures
        r@.len() == questions@.len(),
        forall|i: int| 0 <= i < r@.len() ==> views((#[trigger] r@[i])@) == choices_for(questions@[i]@, answers@),
{
    let mut r: Vec<Vec<String>> = Vec::new();
    let mut i: usize = 0;
    while i < questions.len()
        invariant
            i <= questions.len(),
            r@.len() == i,
            forall|k: int| 0 <= k < i ==> views((#[trigger] r@[k])@) == choices_for(questions@[k]@, answers@),
        decreases questions.len() - i,
    {
        let c = choices_of(questions[i].as_str(), answers);
        r.push(c);
        i = i + 1;
    }
    r
}

} // verus!

