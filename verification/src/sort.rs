//! Sorting texts in the order `str` comparison gives.
use vstd::prelude::*;
use crate::text::{chars_less, chars_of, text_less, views};

verus! {


proof fn lemma_less_irreflexive(a: Seq<char>)
    ensures
        !text_less(a, a),
    decreases a.len(),
{
    if a.len() > 0 {
        lemma_less_irreflexive(a.drop_first());
    }
}

proof fn lemma_less_total(a: Seq<char>, b: Seq<char>)
    ensures
        text_less(a, b) || text_less(b, a) || a == b,
    decreases a.len(),
{
    if a.len() > 0 && b.len() > 0 && a[0] == b[0] {
        lemma_less_total(a.drop_first(), b.drop_first());
        if a.drop_first() == b.drop_first() {
            assert(a =~= seq![a[0]] + a.drop_first());
            assert(b =~= seq![b[0]] + b.drop_first());
        }
    } else if a.len() == 0 && b.len() == 0 {
        assert(a =~= b);
    }
}

proof fn lemma_less_transitive(a: Seq<char>, b: Seq<char>, c: Seq<char>)
    requires
        text_less(a, b),
        text_less(b, c),
    ensures
        text_less(a, c),
    decreases a.len(),
{
    if a.len() > 0 && b.len() > 0 && c.len() > 0 && a[0] == b[0] && b[0] == c[0] {
        lemma_less_transitive(a.drop_first(), b.drop_first(), c.drop_first());
    }
}

/// Texts in non-decreasing order.
pub open spec fn sorted_texts(s: Seq<Seq<char>>) -> bool {
    forall|i: int, j: int| 0 <= i < j < s.len() ==> !text_less(#[trigger] s[j], #[trigger] s[i])
}

/// Sorts texts in ascending order (`Vec::sort` on strings).
pub fn sort_texts(v: Vec<String>) -> (r: Vec<String>)
    ensures
        sorted_texts(views(r@)),
        views(r@).to_multiset() == views(v@).to_multiset(),
{
    let mut r: Vec<String> = Vec::new();
    let mut keys: Vec<Vec<char>> = Vec::new();
    let mut i: usize = 0;
    assert(views(r@) =~= views(v@.take(0)));
    while i < v.len()
        invariant
            i <= v.len(),
            keys@.len() == r@.len(),
            forall|k: int| 0 <= k < keys@.len() ==> (#[trigger] keys@[k])@ == r@[k]@,
            sorted_texts(views(r@)),
            views(r@).to_multiset() == views(v@.take(i as int)).to_multiset(),
        decreases v.len() - i,
    {
        let item = v[i].clone();
        let key = chars_of(item.as_str());
        // Find the first position whose text sorts after the new one.
        let mut pos: usize = 0;
        while pos < keys.len()
            invariant
                pos <= keys@.len(),
                keys@.len() == r@.len(),
                forall|k: int| 0 <= k < keys@.len() ==> (#[trigger] keys@[k])@ == r@[k]@,
                forall|k: int| 0 <= k < pos ==> !text_less(key@, #[trigger] r@[k]@),
            ensures
                pos <= keys@.len(),
                forall|k: int| 0 <= k < pos ==> !text_less(key@, #[trigger] r@[k]@),
                pos < keys@.len() ==> text_less(key@, r@[pos as int]@),
            decreases keys@.len() - pos,
        {
            if chars_less(&key, &keys[pos]) {
                break;
            }
            pos = pos + 1;
        }
        let ghost old_r = views(r@);
        let ghost kv = key@;
        proof {
            assert(item@ == v@[i as int]@);
        }
        r.insert(pos, item);
        keys.insert(pos, key);
        proof {
            let nr = views(r@);
            assert(nr =~= old_r.insert(pos as int, kv));
            assert forall|a: int, b: int| 0 <= a < b < nr.len() implies !text_less(#[trigger] nr[b], #[trigger] nr[a]) by {
                if a < pos && b == pos {
                    assert(nr[a] == old_r[a]);
                    assert(nr[b] == kv);
                } else if a == pos && b > pos {
                    assert(nr[b] == old_r[b - 1]);
                    assert(nr[a] == kv);
                    assert(text_less(kv, old_r[pos as int]));
                    if text_less(old_r[b - 1], kv) {
                        lemma_less_transitive(old_r[b - 1], kv, old_r[pos as int]);
                        if b - 1 == pos {
                            lemma_less_irreflexive(old_r[pos as int]);
                        } else {
                            assert(!text_less(old_r[b - 1], old_r[pos as int]));
                        }
                    }
                } else if a < pos && b > pos {
                    assert(nr[a] == old_r[a]);
                    assert(nr[b] == old_r[b - 1]);
                } else if a > pos {
                    assert(nr[a] == old_r[a - 1]);
                    assert(nr[b] == old_r[b - 1]);
                } else {
                    assert(nr[a] == old_r[a]);
                    assert(nr[b] == old_r[b]);
                }
            }
            assert(views(v@.take(i + 1)) =~= views(v@.take(i as int)).push(kv));
            vstd::seq_lib::to_multiset_insert(old_r, pos as int, kv);
            vstd::seq_lib::to_multiset_build(views(v@.take(i as int)), kv);
        }
        i = i + 1;
    }
    assert(v@.take(v.len() as int) =~= v@);
    r
}

} // verus!
