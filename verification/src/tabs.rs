//! Closing the tabs of a workspace that goes away (archived or removed with
//! its project): they close from the last to the first, so that each index
//! still names the tab it was computed for, and the others stay in order.
use vstd::prelude::*;
use crate::command::InputMode;

verus! {

/// The indices of the tabs in workspace `id`, from the last to the first.
pub open spec fn closing_order(ws: Seq<Option<u128>>, id: u128) -> Seq<nat>
    decreases ws.len(),
{
    if ws.len() == 0 {
        Seq::empty()
    } else if ws.last() == Some(id) {
        seq![(ws.len() - 1) as nat] + closing_order(ws.drop_last(), id)
    } else {
        closing_order(ws.drop_last(), id)
    }
}

/// The tabs left after closing the tabs at the given indices, one after
/// the other.
pub open spec fn close_each<T>(s: Seq<T>, idx: Seq<nat>) -> Seq<T>
    decreases idx.len(),
{
    if idx.len() == 0 {
        s
    } else {
        close_each(s.remove(idx[0] as int), idx.drop_first())
    }
}

/// The tabs that are not in workspace `id`, in order.
pub open spec fn other_tabs(ws: Seq<Option<u128>>, id: u128) -> Seq<Option<u128>>
    decreases ws.len(),
{
    if ws.len() == 0 {
        Seq::empty()
    } else if ws.last() == Some(id) {
        other_tabs(ws.drop_last(), id)
    } else {
        other_tabs(ws.drop_last(), id).push(ws.last())
    }
}

/// Whether the indices decrease strictly and all lie below `bound`.
pub open spec fn descending_below(idx: Seq<nat>, bound: nat) -> bool {
    &&& forall|i: int| 0 <= i < idx.len() ==> #[trigger] idx[i] < bound
    &&& forall|i: int, j: int| 0 <= i < j < idx.len() ==> #[trigger] idx[i] > #[trigger] idx[j]
}

proof fn lemma_closing_order_descends(ws: Seq<Option<u128>>, id: u128)
    ensures
        descending_below(closing_order(ws, id), ws.len()),
    decreases ws.len(),
{
    if ws.len() > 0 {
        lemma_closing_order_descends(ws.drop_last(), id);
        let rest = closing_order(ws.drop_last(), id);
        if ws.last() == Some(id) {
            let all = seq![(ws.len() - 1) as nat] + rest;
            assert forall|i: int, j: int| 0 <= i < j < all.len() implies #[trigger] all[i] > #[trigger] all[j] by {
                if i == 0 {
                    assert(all[j] == rest[j - 1]);
                } else {
                    assert(all[i] == rest[i - 1]);
                    assert(all[j] == rest[j - 1]);
                }
            }
            assert forall|i: int| 0 <= i < all.len() implies #[trigger] all[i] < ws.len() by {
                if i > 0 {
                    assert(all[i] == rest[i - 1]);
                }
            }
        }
    }
}

/// Closing tabs below the last one leaves the last one last.
proof fn lemma_close_keeps_last<T>(s: Seq<T>, idx: Seq<nat>, t: T)
    requires
        descending_below(idx, s.len()),
    ensures
        close_each(s.push(t), idx) == close_each(s, idx).push(t),
    decreases idx.len(),
{
    if idx.len() > 0 {
        let k = idx[0] as int;
        assert(s.push(t).remove(k) =~= s.remove(k).push(t));
        let rest = idx.drop_first();
        assert forall|i: int| 0 <= i < rest.len() implies #[trigger] rest[i] < s.remove(k).len() by {
            assert(rest[i] == idx[i + 1]);
            assert(idx[0] > idx[i + 1]);
        }
        assert forall|i: int, j: int| 0 <= i < j < rest.len() implies #[trigger] rest[i] > #[trigger] rest[j] by {
            assert(rest[i] == idx[i + 1]);
            assert(rest[j] == idx[j + 1]);
        }
        lemma_close_keeps_last(s.remove(k), rest, t);
    }
}

/// Closing a workspace's tabs from the last to the first closes exactly
/// those tabs and leaves the others in their order.
pub proof fn lemma_closing_leaves_other_tabs(ws: Seq<Option<u128>>, id: u128)
    ensures
        close_each(ws, closing_order(ws, id)) == other_tabs(ws, id),
    decreases ws.len(),
{
    if ws.len() > 0 {
        let init = ws.drop_last();
        lemma_closing_leaves_other_tabs(init, id);
        lemma_closing_order_descends(init, id);
        assert(init.push(ws.last()) =~= ws);
        if ws.last() == Some(id) {
            let order = closing_order(ws, id);
            assert(order[0] == (ws.len() - 1) as nat);
            assert(order.drop_first() =~= closing_order(init, id));
            assert(ws.remove(ws.len() - 1) =~= init);
        } else {
            lemma_close_keeps_last(init, closing_order(init, id), ws.last());
        }
    }
}

/// The tabs to close for a workspace, given each tab's workspace: their
/// indices from the last to the first.
pub fn tabs_to_close(workspaces: &Vec<Option<u128>>, id: u128) -> (r: Vec<usize>)
    ensures
        r@.map_values(|i: usize| i as nat) == closing_order(workspaces@, id),
{
    let mut r: Vec<usize> = Vec::new();
    let mut k: usize = workspaces.len();
    assert(workspaces@.take(k as int) =~= workspaces@);
    assert(Seq::<nat>::empty() + closing_order(workspaces@, id) =~= closing_order(workspaces@, id));
    assert(r@.map_values(|i: usize| i as nat) =~= Seq::<nat>::empty());
    while k > 0
        invariant
            k <= workspaces.len(),
            closing_order(workspaces@, id) == r@.map_values(|i: usize| i as nat) + closing_order(
                workspaces@.take(k as int),
                id,
            ),
        decreases k,
    {
        let ghost before = r@.map_values(|i: usize| i as nat);
        let ghost pre = workspaces@.take(k as int);
        proof {
            assert(pre.drop_last() =~= workspaces@.take(k - 1));
            assert(pre.last() == workspaces@[k - 1]);
        }
        if workspaces[k - 1] == Some(id) {
            r.push(k - 1);
            assert(r@.map_values(|i: usize| i as nat) =~= before.push((k - 1) as nat));
            assert(before + closing_order(pre, id) =~= before.push((k - 1) as nat) + closing_order(
                workspaces@.take(k - 1),
                id,
            ));
        }
        k = k - 1;
    }
    assert(r@.map_values(|i: usize| i as nat) + Seq::<nat>::empty() =~= r@.map_values(|i: usize| i as nat));
    r
}

/// The first tab in workspace `id`.
pub open spec fn first_tab_of(ws: Seq<Option<u128>>, id: u128) -> Option<nat>
    decreases ws.len(),
{
    if ws.len() == 0 {
        None
    } else if ws[0] == Some(id) {
        Some(0)
    } else {
        match first_tab_of(ws.drop_first(), id) {
            Some(i) => Some(i + 1),
            None => None,
        }
    }
}

/// The tab already open on a workspace, if any: opening the workspace again
/// switches to it.
pub fn find_tab_for_workspace(workspaces: &Vec<Option<u128>>, id: u128) -> (r: Option<usize>)
    ensures
        match r {
            Some(i) => first_tab_of(workspaces@, id) == Some(i as nat),
            None => first_tab_of(workspaces@, id) is None,
        },
{
    let mut i: usize = 0;
    assert(workspaces@.skip(0) =~= workspaces@);
    while i < workspaces.len()
        invariant
            i <= workspaces.len(),
            first_tab_of(workspaces@, id) == (match first_tab_of(workspaces@.skip(i as int), id) {
                Some(j) => Some((j + i) as nat),
                None => None::<nat>,
            }),
        decreases workspaces.len() - i,
    {
        proof {
            assert(workspaces@.skip(i as int)[0] == workspaces@[i as int]);
            assert(workspaces@.skip(i as int).drop_first() =~= workspaces@.skip(i + 1));
        }
        if workspaces[i] == Some(id) {
            return Some(i);
        }
        i = i + 1;
    }
    proof {
        assert(workspaces@.skip(i as int) =~= Seq::<Option<u128>>::empty());
    }
    None
}

/// The mode after a workspace's tabs closed: with no tab left the sidebar
/// opens, unless an error dialog has the keyboard; otherwise the mode stays.
pub fn mode_after_closing(tabs_left: usize, mode: InputMode) -> (r: Option<InputMode>)
    ensures
        r == (if tabs_left == 0 && mode != InputMode::ShowingError {
            Some(InputMode::SidebarNavigation)
        } else {
            None
        }),
{
    if tabs_left == 0 && mode != InputMode::ShowingError {
        Some(InputMode::SidebarNavigation)
    } else {
        None
    }
}

} // verus!
