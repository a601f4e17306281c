//! How pull-request status found by the background git tracker reaches the
//! open sessions. A session that has no pull request yet never takes on one
//! that is already merged or closed: a reused branch name must not bring an
//! old pull request back.
use vstd::prelude::*;

verus! {

/// A session tab as far as pull-request tracking goes.
#[derive(PartialEq, Eq, Structural, Clone, Copy, Debug)]
pub struct TabPr {
    pub workspace_id: Option<u128>,
    pub pr_number: Option<u32>,
}

/// A pull-request status reported for a workspace.
#[derive(PartialEq, Eq, Structural, Clone, Copy, Debug)]
pub struct PrStatusUpdate {
    pub number: Option<u32>,
    /// The pull request is merged or closed.
    pub merged_or_closed: bool,
}

/// What the sidebar does with the workspace's pull-request status.
#[derive(PartialEq, Eq, Structural, Clone, Copy, Debug)]
pub enum SidebarPr {
    /// Show the reported status.
    Update,
    /// Forget the workspace's pull request.
    Clear,
}

/// The status reports a merged or closed pull request.
pub open spec fn is_stale(status: Option<PrStatusUpdate>) -> bool {
    match status {
        Some(s) => s.merged_or_closed,
        None => false,
    }
}

/// A tab takes the status when it belongs to the workspace, a status was
/// reported, and the status is not a stale pull request for a tab that has
/// none yet.
pub open spec fn accepts(t: TabPr, workspace_id: u128, status: Option<PrStatusUpdate>) -> bool {
    &&& t.workspace_id == Some(workspace_id)
    &&& status is Some
    &&& !(t.pr_number is None && is_stale(status))
}

/// The tab after the update: a tab that takes the status keeps the reported
/// number, or its own when the status has none.
pub open spec fn updated_tab(t: TabPr, workspace_id: u128, status: Option<PrStatusUpdate>) -> TabPr {
    if accepts(t, workspace_id, status) {
        TabPr {
            workspace_id: t.workspace_id,
            pr_number: match status {
                Some(s) => match s.number {
                    Some(n) => Some(n),
                    None => t.pr_number,
                },
                None => t.pr_number,
            },
        }
    } else {
        t
    }
}

/// The sidebar shows the status unless it is stale and no tab took it.
pub open spec fn sidebar_action(tabs: Seq<TabPr>, workspace_id: u128, status: Option<PrStatusUpdate>) -> SidebarPr {
    if !is_stale(status) || exists|i: int| 0 <= i < tabs.len() && accepts(#[trigger] tabs[i], workspace_id, status) {
        SidebarPr::Update
    } else {
        SidebarPr::Clear
    }
}

fn tab_accepts(t: TabPr, workspace_id: u128, status: Option<PrStatusUpdate>) -> (b: bool)
    ensures
        b == accepts(t, workspace_id, status),
{
    match status {
        Some(s) => t.workspace_id == Some(workspace_id) && !(t.pr_number.is_none() && s.merged_or_closed),
        None => false,
    }
}

/// Applies a pull-request status reported for a workspace to the tabs.
/// Returns which tabs took it (their status bars show it) and what the
/// sidebar does.
pub fn apply_pr_status_update(tabs: &mut Vec<TabPr>, workspace_id: u128, status: Option<PrStatusUpdate>) -> (r: (Vec<bool>, SidebarPr))
    ensures
        final(tabs)@.len() == old(tabs)@.len(),
        forall|i: int| 0 <= i < old(tabs)@.len() ==> final(tabs)@[i] == updated_tab(#[trigger] old(tabs)@[i], workspace_id, status),
        r.0@.len() == old(tabs)@.len(),
        forall|i: int| 0 <= i < old(tabs)@.len() ==> r.0@[i] == accepts(#[trigger] old(tabs)@[i], workspace_id, status),
        r.1 == sidebar_action(old(tabs)@, workspace_id, status),
        // A tab without a pull request never takes a merged or closed one.
        is_stale(status) ==> forall|i: int| 0 <= i < old(tabs)@.len() && (#[trigger] old(tabs)@[i]).pr_number is None ==> final(tabs)@[i].pr_number is None,
        // A known pull request is never forgotten.
        forall|i: int| 0 <= i < old(tabs)@.len() && (#[trigger] old(tabs)@[i]).pr_number is Some ==> final(tabs)@[i].pr_number is Some,
        // Tabs of other workspaces are left alone.
        forall|i: int| 0 <= i < old(tabs)@.len() && (#[trigger] old(tabs)@[i]).workspace_id != Some(workspace_id) ==> final(tabs)@[i] == old(tabs)@[i],
{
    let ghost start = tabs@;
    let mut taken: Vec<bool> = Vec::new();
    let mut any_taken = false;
    let mut i: usize = 0;
    while i < tabs.len()
        invariant
            i <= tabs.len(),
            tabs@.len() == start.len(),
            taken@.len() == i,
            forall|k: int| 0 <= k < i ==> tabs@[k] == updated_tab(#[trigger] start[k], workspace_id, status),
            forall|k: int| i <= k < start.len() ==> tabs@[k] == #[trigger] start[k],
            forall|k: int| 0 <= k < i ==> taken@[k] == accepts(#[trigger] start[k], workspace_id, status),
            any_taken == exists|k: int| 0 <= k < i && accepts(#[trigger] start[k], workspace_id, status),
        decreases start.len() - i,
    {
        let t = tabs[i];
        let take = tab_accepts(t, workspace_id, status);
        if take {
            let number = match status {
                Some(s) => match s.number {
                    Some(n) => Some(n),
                    None => t.pr_number,
                },
                None => t.pr_number,
            };
            tabs.set(i, TabPr { workspace_id: t.workspace_id, pr_number: number });
            any_taken = true;
        }
        taken.push(take);
        proof {
            assert(accepts(start[i as int], workspace_id, status) == take);
        }
        i = i + 1;
    }
    let stale = match status {
        Some(s) => s.merged_or_closed,
        None => false,
    };
    let action = if !stale || any_taken {
        SidebarPr::Update
    } else {
        SidebarPr::Clear
    };
    (taken, action)
}

} // verus!
