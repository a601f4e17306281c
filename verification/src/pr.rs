//! Pull-request numbers found in agent output, and the rough token estimate
//! used for prompts.
use vstd::prelude::*;
use crate::text::{all_digits, chars_of, char_is_space, decimal, digits_value, is_digit, is_space, lemma_decimal_digits};

verus! {

/// The white-space separated words of `s` (`str::split_whitespace`); `cur`
/// holds the part of a word already read.
pub open spec fn words_from(s: Seq<char>, cur: Seq<char>) -> Seq<Seq<char>>
    decreases s.len(),
{
    if s.len() == 0 {
        if cur.len() > 0 {
            seq![cur]
        } else {
            Seq::empty()
        }
    } else if is_space(s[0]) {
        (if cur.len() > 0 {
            seq![cur]
        } else {
            Seq::empty()
        }) + words_from(s.drop_first(), Seq::empty())
    } else {
        words_from(s.drop_first(), cur.push(s[0]))
    }
}

/// The position of the first occurrence of `p` in `w`.
pub open spec fn find(w: Seq<char>, p: Seq<char>) -> Option<nat>
    decreases w.len(),
{
    if w.len() >= p.len() && w.take(p.len() as int) == p {
        Some(0)
    } else if w.len() == 0 {
        None
    } else {
        match find(w.drop_first(), p) {
            Some(i) => Some(i + 1),
            None => None,
        }
    }
}

/// The run of decimal digits that `s` begins with.
pub open spec fn leading_digits(s: Seq<char>) -> Seq<char>
    decreases s.len(),
{
    if s.len() > 0 && is_digit(s[0]) {
        seq![s[0]] + leading_digits(s.drop_first())
    } else {
        Seq::empty()
    }
}

/// The pull-request number in a word holding `/pull/` followed by digits,
/// when those digits denote a `u32`.
pub open spec fn pr_in_word(w: Seq<char>) -> Option<u32> {
    match find(w, "/pull/"@) {
        Some(i) => {
            let d = leading_digits(w.skip(i as int + 6));
            if d.len() > 0 && digits_value(d) <= u32::MAX {
                Some(digits_value(d) as u32)
            } else {
                None
            }
        },
        None => None,
    }
}

/// The number of the first word that names a pull request.
pub open spec fn pr_in_words(ws: Seq<Seq<char>>) -> Option<u32>
    decreases ws.len(),
{
    if ws.len() == 0 {
        None
    } else {
        match pr_in_word(ws[0]) {
            Some(n) => Some(n),
            None => pr_in_words(ws.drop_first()),
        }
    }
}

/// The pull-request number of the first GitHub PR link in a text (a word
/// like `github.com/owner/repo/pull/123`).
pub open spec fn pr_number_in(text: Seq<char>) -> Option<u32> {
    pr_in_words(words_from(text, Seq::empty()))
}

pub(crate) fn find_in(w: &Vec<char>, p: &Vec<char>) -> (r: Option<usize>)
    ensures
        r matches Some(i) ==> find(w@, p@) == Some(i as nat) && i <= w.len(),
        r is None ==> find(w@, p@) is None,
{
    let mut i: usize = 0;
    assert(w@.skip(0) =~= w@);
    while i <= w.len()
        invariant
            i <= w.len(),
            find(w@, p@) == (match find(w@.skip(i as int), p@) {
                Some(j) => Some((j + i) as nat),
                None => None::<nat>,
            }),
        decreases w.len() + 1 - i,
    {
        let ghost rest = w@.skip(i as int);
        let ok = crate::text::chars_match_at(w, i, p);
        if ok {
            return Some(i);
        }
        if i == w.len() {
            proof {
                assert(rest.len() == 0);
            }
            return None;
        }
        proof {
            assert(rest.drop_first() =~= w@.skip(i + 1));
        }
        i = i + 1;
    }
    None
}

fn pr_in(w: &Vec<char>) -> (r: Option<u32>)
    ensures
        r == pr_in_word(w@),
{
    let pat = chars_of("/pull/");
    proof {
        reveal_strlit("/pull/");
    }
    match find_in(w, &pat) {
        None => None,
        Some(i) => {
            proof {
                lemma_find_fits(w@, pat@);
            }
            let start = i + 6;
            let mut j: usize = start;
            let mut value: u64 = 0;
            let ghost tail = w@.skip(start as int);
            assert(tail.skip(0) =~= tail);
            while j < w.len() && '0' <= w[j] && w[j] <= '9'
                invariant
                    start <= j <= w.len(),
                    tail == w@.skip(start as int),
                    leading_digits(tail) == w@.subrange(start as int, j as int) + leading_digits(w@.skip(j as int)),
                    value <= u32::MAX as u64 + 1,
                    value as nat == (if digits_value(w@.subrange(start as int, j as int)) <= u32::MAX { digits_value(w@.subrange(start as int, j as int)) } else { u32::MAX as nat + 1 }),
                decreases w.len() - j,
            {
                let d: u64 = (w[j] as u32 - 48) as u64;
                proof {
                    let pre = w@.subrange(start as int, j as int);
                    let post = w@.subrange(start as int, j + 1);
                    assert(post.drop_last() =~= pre);
                    assert(post.last() == w@[j as int]);
                    assert(w@.skip(j as int)[0] == w@[j as int]);
                    assert(w@.skip(j as int).drop_first() =~= w@.skip(j + 1));
                    assert(pre + (seq![w@[j as int]] + leading_digits(w@.skip(j + 1))) =~= post + leading_digits(w@.skip(j + 1)));
                    if digits_value(pre) > u32::MAX {
                        assert(digits_value(post) >= digits_value(pre)) by (nonlinear_arith)
                            requires digits_value(post) == digits_value(pre) * 10 + crate::text::digit_value(post.last());
                    }
                }
                if value > u32::MAX as u64 {
                    value = u32::MAX as u64 + 1;
                } else {
                    let nv = value * 10 + d;
                    value = if nv > u32::MAX as u64 { u32::MAX as u64 + 1 } else { nv };
                }
                j = j + 1;
            }
            proof {
                if j < w.len() {
                    assert(w@.skip(j as int)[0] == w@[j as int]);
                }
                assert(w@.subrange(start as int, j as int) + Seq::<char>::empty() =~= w@.subrange(start as int, j as int));
            }
            if j > start && value <= u32::MAX as u64 {
                Some(value as u32)
            } else {
                None
            }
        },
    }
}

pub(crate) proof fn lemma_find_fits(w: Seq<char>, p: Seq<char>)
    ensures
        find(w, p) matches Some(i) ==> i + p.len() <= w.len(),
    decreases w.len(),
{
    if !(w.len() >= p.len() && w.take(p.len() as int) == p) && w.len() > 0 {
        lemma_find_fits(w.drop_first(), p);
    }
}

/// The number of the first GitHub pull-request link in a text.
pub fn extract_pr_number_from_text(text: &str) -> (r: Option<u32>)
    ensures
        r == pr_number_in(text@),
{
    let cs = chars_of(text);
    let mut cur: Vec<char> = Vec::new();
    let mut i: usize = 0;
    assert(text@.skip(0) =~= text@);
    while i < cs.len()
        invariant
            i <= cs.len(),
            cs@ == text@,
            pr_number_in(text@) == pr_in_words(words_from(text@.skip(i as int), cur@)),
        decreases cs.len() - i,
    {
        let c = cs[i];
        let ghost rest = text@.skip(i as int);
        proof {
            assert(rest[0] == c);
            assert(rest.drop_first() =~= text@.skip(i + 1));
        }
        if char_is_space(c) {
            if cur.len() > 0 {
                let found = pr_in(&cur);
                proof {
                    let tailw = words_from(text@.skip(i + 1), Seq::empty());
                    assert((seq![cur@] + tailw)[0] == cur@);
                    assert((seq![cur@] + tailw).drop_first() =~= tailw);
                }
                if found.is_some() {
                    return found;
                }
            } else {
                proof {
                    assert(Seq::<Seq<char>>::empty() + words_from(text@.skip(i + 1), Seq::empty()) =~= words_from(text@.skip(i + 1), Seq::empty()));
                }
            }
            cur = Vec::new();
        } else {
            cur.push(c);
        }
        i = i + 1;
    }
    proof {
        assert(text@.skip(i as int) =~= Seq::<char>::empty());
    }
    if cur.len() > 0 {
        let found = pr_in(&cur);
        proof {
            assert(words_from(Seq::<char>::empty(), cur@) == seq![cur@]);
            assert(seq![cur@].drop_first() =~= Seq::<Seq<char>>::empty());
            assert(pr_in_words(Seq::<Seq<char>>::empty()) == None::<u32>);
            assert(pr_in_words(seq![cur@]) == pr_in_word(cur@));
        }
        found
    } else {
        proof {
            assert(words_from(Seq::<char>::empty(), cur@) =~= Seq::<Seq<char>>::empty());
        }
        None
    }
}

/// A rough token count for a text: a quarter of its characters, rounded up,
/// and at least one.
pub open spec fn token_estimate(chars: nat) -> nat {
    let c: nat = if chars == 0 { 1 } else { chars };
    ((c + 3) / 4) as nat
}

/// Estimates the tokens of a prompt.
pub fn estimate_tokens(text: &str) -> (n: i64)
    ensures
        n as nat == token_estimate(text@.len()),
{
    let cs = chars_of(text);
    let c: usize = if cs.len() == 0 { 1 } else { cs.len() };
    proof {
        assert(c <= usize::MAX);
    }
    let q: usize = c / 4 + (if c % 4 == 0 { 0 } else { 1 });
    assert(q == (c + 3) / 4);
    q as i64
}

/// The streaming token estimate for an assistant message or reasoning
/// chunk: a quarter of its length in bytes, at least one.
pub fn streaming_token_estimate(byte_len: usize) -> (n: usize)
    ensures
        n == (if byte_len / 4 > 1 { byte_len / 4 } else { 1 }),
{
    let q = byte_len / 4;
    if q > 1 { q } else { 1 }
}

/// The PR number a session keeps after a status update: the status's own
/// number, else the one it had.
pub fn merged_pr_number(status_number: Option<u32>, session_number: Option<u32>) -> (r: Option<u32>)
    ensures
        r == (if status_number.is_some() { status_number } else { session_number }),
{
    match status_number {
        Some(n) => Some(n),
        None => session_number,
    }
}


/// The first word that names a pull request decides: when the words before
/// word `k` name none and word `k` names `n`, the words name `n`, however
/// many earlier words hold `/pull/` without a number.
pub proof fn lemma_first_numbered_word(ws: Seq<Seq<char>>, k: int, n: u32)
    requires
        0 <= k < ws.len(),
        forall|j: int| 0 <= j < k ==> (#[trigger] pr_in_word(ws[j])) is None,
        pr_in_word(ws[k]) == Some(n),
    ensures
        pr_in_words(ws) == Some(n),
    decreases k,
{
    if k > 0 {
        assert(pr_in_word(ws[0]) is None);
        let rest = ws.drop_first();
        assert forall|j: int| 0 <= j < k - 1 implies (#[trigger] pr_in_word(rest[j])) is None by {
            assert(rest[j] == ws[j + 1]);
        }
        assert(rest[k - 1] == ws[k]);
        lemma_first_numbered_word(rest, k - 1, n);
    }
}

/// Words of which none names a pull request name none; and a number found
/// in the words is the number of one of them.
pub proof fn lemma_numbered_words(ws: Seq<Seq<char>>)
    ensures
        (forall|j: int| 0 <= j < ws.len() ==> (#[trigger] pr_in_word(ws[j])) is None) ==> pr_in_words(ws) is None,
        pr_in_words(ws) matches Some(n) ==> exists|j: int| 0 <= j < ws.len() && #[trigger] pr_in_word(ws[j]) == Some(n),
    decreases ws.len(),
{
    if ws.len() > 0 {
        let rest = ws.drop_first();
        lemma_numbered_words(rest);
        if forall|j: int| 0 <= j < ws.len() ==> (#[trigger] pr_in_word(ws[j])) is None {
            assert(pr_in_word(ws[0]) is None);
            assert forall|j: int| 0 <= j < rest.len() implies (#[trigger] pr_in_word(rest[j])) is None by {
                assert(rest[j] == ws[j + 1]);
            }
        }
        if pr_in_words(ws) is Some && pr_in_word(ws[0]) is None {
            let n = pr_in_words(ws).unwrap();
            let j = choose|j: int| 0 <= j < rest.len() && #[trigger] pr_in_word(rest[j]) == Some(n);
            assert(rest[j] == ws[j + 1]);
            assert(pr_in_word(ws[j + 1]) == Some(n));
        }
    }
}

proof fn lemma_find_at_first_char(a: Seq<char>, p: Seq<char>, b: Seq<char>)
    requires
        p.len() > 0,
        forall|i: int| 0 <= i < a.len() ==> #[trigger] a[i] != p[0],
    ensures
        find(a + p + b, p) == Some(a.len()),
    decreases a.len(),
{
    let w = a + p + b;
    if a.len() == 0 {
        assert(w.take(p.len() as int) =~= p);
    } else {
        assert(w[0] == a[0]);
        assert(w.take(p.len() as int)[0] != p[0]);
        let a1 = a.drop_first();
        assert forall|i: int| 0 <= i < a1.len() implies #[trigger] a1[i] != p[0] by {
            assert(a1[i] == a[i + 1]);
        }
        lemma_find_at_first_char(a1, p, b);
        assert(w.drop_first() =~= a1 + p + b);
    }
}

proof fn lemma_leading_digits_of(d: Seq<char>, r: Seq<char>)
    requires
        all_digits(d),
        r.len() == 0 || !is_digit(r[0]),
    ensures
        leading_digits(d + r) == d,
    decreases d.len(),
{
    if d.len() == 0 {
        assert(d + r =~= r);
    } else {
        let d1 = d.drop_first();
        assert forall|i: int| 0 <= i < d1.len() implies is_digit(#[trigger] d1[i]) by {
            assert(d1[i] == d[i + 1]);
        }
        lemma_leading_digits_of(d1, r);
        assert((d + r)[0] == d[0]);
        assert(is_digit(d[0]));
        assert((d + r).drop_first() =~= d1 + r);
        assert(seq![d[0]] + d1 =~= d);
    }
}

/// A link names its pull request: a word made of a part without `/`, then
/// `/pull/`, then the decimal number `n`, then nothing or a non-digit,
/// names `n`.
pub proof fn lemma_pull_link_names_number(a: Seq<char>, n: u32, r: Seq<char>)
    requires
        forall|i: int| 0 <= i < a.len() ==> #[trigger] a[i] != '/',
        r.len() == 0 || !is_digit(r[0]),
    ensures
        pr_in_word(a + "/pull/"@ + decimal(n as nat) + r) == Some(n),
{
    reveal_strlit("/pull/");
    let p = "/pull/"@;
    let d = decimal(n as nat);
    let w = a + p + d + r;
    assert(w =~= a + p + (d + r));
    lemma_find_at_first_char(a, p, d + r);
    assert(w.skip(a.len() as int + 6) =~= d + r);
    lemma_decimal_digits(n as nat);
    lemma_leading_digits_of(d, r);
}


proof fn lemma_words_of_word(w: Seq<char>, cur: Seq<char>, rest: Seq<char>)
    requires
        forall|i: int| 0 <= i < w.len() ==> !is_space(#[trigger] w[i]),
        rest.len() == 0 || is_space(rest[0]),
        cur.len() + w.len() > 0,
    ensures
        words_from(w + rest, cur) == seq![cur + w] + words_from(rest, Seq::empty()),
    decreases w.len(),
{
    if w.len() == 0 {
        assert(w + rest =~= rest);
        assert(cur + w =~= cur);
        if rest.len() == 0 {
            assert(seq![cur] + Seq::<Seq<char>>::empty() =~= seq![cur]);
        } else {
            assert(words_from(rest.drop_first(), Seq::empty()) == words_from(rest, Seq::empty())) by {
                lemma_words_skip_space(rest);
            }
        }
    } else {
        let w1 = w.drop_first();
        assert forall|i: int| 0 <= i < w1.len() implies !is_space(#[trigger] w1[i]) by {
            assert(w1[i] == w[i + 1]);
        }
        assert((w + rest)[0] == w[0]);
        assert((w + rest).drop_first() =~= w1 + rest);
        lemma_words_of_word(w1, cur.push(w[0]), rest);
        assert(cur.push(w[0]) + w1 =~= cur + w);
    }
}

proof fn lemma_words_skip_space(rest: Seq<char>)
    requires
        rest.len() > 0,
        is_space(rest[0]),
    ensures
        words_from(rest, Seq::empty()) == words_from(rest.drop_first(), Seq::empty()),
{
    assert(Seq::<Seq<char>>::empty() + words_from(rest.drop_first(), Seq::empty()) =~= words_from(
        rest.drop_first(),
        Seq::empty(),
    ));
}

/// Words are split at any white space: a text that starts with a word of
/// no white space, followed by white space or the end, has that word first
/// and then the words of the rest.
pub proof fn lemma_first_word(w: Seq<char>, rest: Seq<char>)
    requires
        w.len() > 0,
        forall|i: int| 0 <= i < w.len() ==> !is_space(#[trigger] w[i]),
        rest.len() == 0 || is_space(rest[0]),
    ensures
        words_from(w + rest, Seq::empty()) == seq![w] + words_from(rest, Seq::empty()),
{
    lemma_words_of_word(w, Seq::empty(), rest);
    assert(Seq::<char>::empty() + w =~= w);
}

} // verus!
