//! Screen geometry for mouse handling: which part of the screen a click
//! lands in, where centred dialogs and their lists sit, and which element of
//! the status bar or footer lies under a column.
use vstd::prelude::*;
use crate::text::decimal;

verus! {

/// A rectangle of terminal cells.
#[derive(PartialEq, Eq, Structural, Clone, Copy, Debug)]
pub struct Rect {
    pub x: u16,
    pub y: u16,
    pub width: u16,
    pub height: u16,
}

/// Whether the cell (x, y) lies inside the rectangle.
pub open spec fn contains(r: Rect, x: u16, y: u16) -> bool {
    r.x <= x < r.x + r.width && r.y <= y < r.y + r.height
}

/// Whether the cell (x, y) lies inside the rectangle.
pub fn point_in_rect(x: u16, y: u16, rect: Rect) -> (b: bool)
    ensures
        b == contains(rect, x, y),
{
    let right: u32 = rect.x as u32 + rect.width as u32;
    let bottom: u32 = rect.y as u32 + rect.height as u32;
    x >= rect.x && (x as u32) < right && y >= rect.y && (y as u32) < bottom
}

pub open spec fn sat_sub(a: u16, b: u16) -> u16 {
    if a >= b {
        (a - b) as u16
    } else {
        0
    }
}

pub open spec fn min16(a: u16, b: u16) -> u16 {
    if a <= b {
        a
    } else {
        b
    }
}

/// A dialog of the wanted size, shrunk to leave the given margins on the
/// screen, and centred on it.
pub open spec fn centered(screen_w: u16, screen_h: u16, want_w: u16, want_h: u16, margin_w: u16, margin_h: u16) -> Rect {
    let w = min16(want_w, sat_sub(screen_w, margin_w));
    let h = min16(want_h, sat_sub(screen_h, margin_h));
    Rect { x: (sat_sub(screen_w, w) / 2) as u16, y: (sat_sub(screen_h, h) / 2) as u16, width: w, height: h }
}

/// Places a centred dialog on a screen of the given size.
pub fn centered_dialog(screen_w: u16, screen_h: u16, want_w: u16, want_h: u16, margin_w: u16, margin_h: u16) -> (r: Rect)
    ensures
        r == centered(screen_w, screen_h, want_w, want_h, margin_w, margin_h),
        r.x + r.width <= screen_w || screen_w < r.width,
{
    let avail_w = screen_w.saturating_sub(margin_w);
    let avail_h = screen_h.saturating_sub(margin_h);
    let w = if want_w <= avail_w { want_w } else { avail_w };
    let h = if want_h <= avail_h { want_h } else { avail_h };
    Rect { x: screen_w.saturating_sub(w) / 2, y: screen_h.saturating_sub(h) / 2, width: w, height: h }
}

/// The model picker: 60 by 18 cells, at most the screen less 4 columns and
/// 2 rows.
pub fn model_selector_area(screen_w: u16, screen_h: u16) -> (r: Rect)
    ensures
        r == centered(screen_w, screen_h, 60, 18, 4, 2),
{
    centered_dialog(screen_w, screen_h, 60, 18, 4, 2)
}

/// The reasoning-effort picker: 58 by 14 cells, at most the screen less 4
/// columns and 2 rows.
pub fn reasoning_selector_area(screen_w: u16, screen_h: u16) -> (r: Rect)
    ensures
        r == centered(screen_w, screen_h, 58, 14, 4, 2),
{
    centered_dialog(screen_w, screen_h, 58, 14, 4, 2)
}

/// The orchestration picker: 58 by 9 cells, at most the screen.
pub fn orchestration_selector_area(screen_w: u16, screen_h: u16) -> (r: Rect)
    ensures
        r == centered(screen_w, screen_h, 58, 9, 0, 0),
{
    centered_dialog(screen_w, screen_h, 58, 9, 0, 0)
}

/// The project picker: 60 columns and 6 rows more than its visible list,
/// centred.
pub fn project_picker_area(screen_w: u16, screen_h: u16, visible_rows: u16) -> (r: Rect)
    requires
        visible_rows <= u16::MAX - 6,
    ensures
        r == (Rect {
            x: (sat_sub(screen_w, 60) / 2) as u16,
            y: (sat_sub(screen_h, (6 + visible_rows) as u16) / 2) as u16,
            width: 60,
            height: (6 + visible_rows) as u16,
        }),
{
    let h: u16 = 6 + visible_rows;
    Rect { x: screen_w.saturating_sub(60) / 2, y: screen_h.saturating_sub(h) / 2, width: 60, height: h }
}

/// The row of a dialog's list under `y`, when the list takes the inner area
/// less `top` rows above and `bottom` rows below.
pub open spec fn list_row(inner: Rect, y: u16, top: u16, bottom: u16) -> Option<usize> {
    let list_y = inner.y + top;
    let list_h = if inner.height >= bottom { inner.height - bottom } else { 0 };
    if list_y <= y < list_y + list_h {
        Some((y - list_y) as usize)
    } else {
        None
    }
}

/// The list row under `y` in a dialog whose list has `top` rows above it
/// (search field, separator) and `bottom` rows below.
pub fn list_row_at(inner: Rect, y: u16, top: u16, bottom: u16) -> (r: Option<usize>)
    ensures
        r == list_row(inner, y, top, bottom),
{
    let list_y: u32 = inner.y as u32 + top as u32;
    let list_h: u32 = inner.height.saturating_sub(bottom) as u32;
    if list_y <= y as u32 && (y as u32) < list_y + list_h {
        Some((y as u32 - list_y) as usize)
    } else {
        None
    }
}

/// The row of the project picker's list under (x, y): the list starts two
/// rows into the inner area, spans its width, and leaves three rows.
pub fn project_picker_row(inner: Rect, x: u16, y: u16) -> (r: Option<usize>)
    ensures
        r == (if inner.x <= x < inner.x + inner.width { list_row(inner, y, 2, 3) } else { None }),
{
    let right: u32 = inner.x as u32 + inner.width as u32;
    if x >= inner.x && (x as u32) < right {
        list_row_at(inner, y, 2, 3)
    } else {
        None
    }
}

/// The row of the sidebar tree under `y`, below the header rows.
pub open spec fn sidebar_row(area: Rect, header_rows: u16, y: u16) -> Option<usize> {
    let start = if area.y + header_rows > u16::MAX { u16::MAX as int } else { area.y + header_rows };
    if y < start {
        None
    } else {
        Some((y - start) as usize)
    }
}

/// Which visual row of the sidebar tree a click at `y` hits; none on the
/// header.
pub fn sidebar_visual_row(area: Rect, header_rows: u16, y: u16) -> (r: Option<usize>)
    ensures
        r == sidebar_row(area, header_rows, y),
{
    let start = area.y.saturating_add(header_rows);
    if y < start {
        None
    } else {
        Some((y - start) as usize)
    }
}

/// Whether a click repeats the previous one on the same item within half a
/// second.
pub open spec fn double_click(last: Option<(u64, usize)>, now: u64, index: usize) -> bool {
    match last {
        Some((t, i)) => i == index && (if now >= t { now - t } else { 0 }) < 500,
        None => false,
    }
}

/// Detects a double click on a list item.
pub fn is_double_click(last: Option<(u64, usize)>, now: u64, index: usize) -> (b: bool)
    ensures
        b == double_click(last, now, index),
{
    match last {
        Some((t, i)) => {
            let elapsed: u64 = if now >= t { now - t } else { 0 };
            i == index && elapsed < 500
        },
        None => false,
    }
}

// ---------------------------------------------------------------------------
// Status bar
// ---------------------------------------------------------------------------

/// The part of the status bar a click lands on.
#[derive(PartialEq, Eq, Structural, Clone, Copy, Debug)]
pub enum StatusBarRegion {
    /// The Build/Plan mode label: toggles the mode.
    Mode,
    /// The model and agent names: opens the model picker.
    Model,
    /// Anywhere else.
    Other,
}

/// The region under column `rel` (counted from the bar's left edge). The bar
/// reads two spaces, the mode label and two spaces when the provider has a
/// Plan mode, then the model name, a space and the agent name; each region
/// takes one extra column on either side. In shell mode neither region
/// reacts.
pub open spec fn status_region(rel: nat, shell_mode: bool, show_mode: bool, mode_width: nat, model_width: nat, agent_width: nat) -> StatusBarRegion {
    if shell_mode {
        StatusBarRegion::Other
    } else if show_mode {
        if 1 <= rel < 2 + mode_width + 1 {
            StatusBarRegion::Mode
        } else if 2 + mode_width + 1 <= rel < 2 + mode_width + 2 + model_width + 1 + agent_width + 1 {
            StatusBarRegion::Model
        } else {
            StatusBarRegion::Other
        }
    } else if 1 <= rel < 2 + model_width + 1 + agent_width + 1 {
        StatusBarRegion::Model
    } else {
        StatusBarRegion::Other
    }
}

/// Finds the status-bar region under a click at column `x`.
pub fn status_bar_region(x: u16, area: Rect, shell_mode: bool, show_mode: bool, mode_width: usize, model_width: usize, agent_width: usize) -> (r: StatusBarRegion)
    requires
        mode_width + model_width + agent_width + 8 <= usize::MAX,
    ensures
        r == status_region(sat_sub(x, area.x) as nat, shell_mode, show_mode, mode_width as nat, model_width as nat, agent_width as nat),
{
    let rel: usize = x.saturating_sub(area.x) as usize;
    if shell_mode {
        return StatusBarRegion::Other;
    }
    let leading: usize = 2;
    if show_mode {
        let mode_start: usize = leading - 1;
        let mode_end: usize = leading + mode_width + 1;
        let model_start: usize = leading + mode_width + 2 - 1;
        let model_end: usize = leading + mode_width + 2 + model_width + 1 + agent_width + 1;
        if rel >= mode_start && rel < mode_end {
            StatusBarRegion::Mode
        } else if rel >= model_start && rel < model_end {
            StatusBarRegion::Model
        } else {
            StatusBarRegion::Other
        }
    } else {
        let model_start: usize = leading - 1;
        let model_end: usize = leading + model_width + 1 + agent_width + 1;
        if rel >= model_start && rel < model_end {
            StatusBarRegion::Model
        } else {
            StatusBarRegion::Other
        }
    }
}

/// The number of decimal digits of `n`.
pub open spec fn digit_count(n: nat) -> nat {
    decimal(n).len()
}

fn count_digits(n: u64) -> (d: usize)
    ensures
        d == digit_count(n as nat),
        1 <= d <= 20,
    decreases n,
{
    if n < 10 {
        1
    } else {
        let r = count_digits(n / 10);
        proof {
            assert(decimal(n as nat) == decimal((n / 10) as nat).push(crate::text::digit_char((n % 10) as nat)));
            lemma_digit_count_bound(n as nat);
        }
        r + 1
    }
}

pub open spec fn pow10(k: nat) -> nat
    decreases k,
{
    if k == 0 {
        1
    } else {
        10 * pow10((k - 1) as nat)
    }
}

proof fn lemma_digits_below(n: nat, k: nat)
    requires
        k >= 1,
        n < pow10(k),
    ensures
        digit_count(n) <= k,
    decreases k,
{
    if n >= 10 {
        assert(decimal(n) == decimal(n / 10).push(crate::text::digit_char(n % 10)));
        if k == 1 {
            assert(pow10(1) == 10) by {
                reveal_with_fuel(pow10, 2);
            }
        } else {
            assert(n / 10 < pow10((k - 1) as nat));
            lemma_digits_below(n / 10, (k - 1) as nat);
        }
    }
}

proof fn lemma_digit_count_bound(n: nat)
    ensures
        1 <= digit_count(n),
        n <= u64::MAX ==> digit_count(n) <= 20,
{
    if n >= 10 {
        assert(decimal(n) == decimal(n / 10).push(crate::text::digit_char(n % 10)));
    }
    if n <= u64::MAX {
        assert(pow10(20) == 100000000000000000000) by {
            reveal_with_fuel(pow10, 21);
        }
        lemma_digits_below(n, 20);
    }
}

/// What sits on the right of the status bar besides the PR badge.
pub struct RightContent {
    pub has_changes: bool,
    pub additions: u64,
    pub deletions: u64,
    /// The length of the branch name, when one is shown.
    pub branch_len: Option<u64>,
}

/// The columns of the PR badge ` PR #N `.
pub open spec fn badge_width(pr: u32) -> nat {
    5 + digit_count(pr as nat) + 1
}

/// The columns of the right-hand content: the badge, the diff stats
/// ` · +A -D`, the branch ` · name` and two columns of padding.
pub open spec fn right_width(pr: u32, c: RightContent) -> nat {
    let stats: nat = if c.has_changes {
        3 + (if c.additions > 0 { 1 + digit_count(c.additions as nat) } else { 0 }) + (if c.additions > 0 && c.deletions > 0 { 1nat } else { 0 })
            + (if c.deletions > 0 { 1 + digit_count(c.deletions as nat) } else { 0 })
    } else {
        0
    };
    let branch: nat = match c.branch_len {
        Some(l) => 3 + l as nat,
        None => 0,
    };
    badge_width(pr) + stats + branch + 2
}

/// Whether a click at column `x` hits the PR badge: the right-hand content
/// is flush with the bar's right edge and begins with the badge; nothing is
/// hit when the content does not fit.
pub open spec fn badge_hit(x: u16, area: Rect, pr: u32, c: RightContent) -> bool {
    let w = right_width(pr, c);
    w <= area.width && area.x + (area.width - w) <= x < area.x + (area.width - w) + badge_width(pr)
}

/// Tells whether a click at column `x` opens the pull request.
pub fn pr_badge_hit(x: u16, area: Rect, pr: u32, c: &RightContent) -> (b: bool)
    ensures
        b == badge_hit(x, area, pr, *c),
{
    let badge: u64 = 5 + count_digits(pr as u64) as u64 + 1;
    let mut right: u64 = badge;
    if c.has_changes {
        right = right + 3;
        if c.additions > 0 {
            right = right + 1 + count_digits(c.additions) as u64;
        }
        if c.additions > 0 && c.deletions > 0 {
            right = right + 1;
        }
        if c.deletions > 0 {
            right = right + 1 + count_digits(c.deletions) as u64;
        }
    }
    if let Some(len) = c.branch_len {
        if len > (area.width as u64) {
            return false;
        }
        right = right + 3 + len;
    }
    right = right + 2;
    if right > area.width as u64 {
        return false;
    }
    let start: u64 = area.x as u64 + (area.width as u64 - right);
    let end: u64 = start + badge;
    (x as u64) >= start && (x as u64) < end
}

// ---------------------------------------------------------------------------
// Footer
// ---------------------------------------------------------------------------

/// The columns a footer hint takes: ` key `, ` action` and three spaces.
pub open spec fn hint_width(h: (usize, usize)) -> nat {
    ((h.0 + 2) + (h.1 + 1) + 3) as nat
}

/// The index of the hint under column `rel`, hints laid out from column
/// `start` on.
pub open spec fn hint_at(hints: Seq<(usize, usize)>, start: nat, rel: nat) -> Option<nat>
    decreases hints.len(),
{
    if hints.len() == 0 {
        None
    } else if start <= rel < start + hint_width(hints[0]) {
        Some(0)
    } else {
        match hint_at(hints.drop_first(), start + hint_width(hints[0]), rel) {
            Some(i) => Some(i + 1),
            None => None,
        }
    }
}

/// No hint laid out from a column past `rel` lies under it.
proof fn lemma_hint_after(hints: Seq<(usize, usize)>, start: nat, rel: nat)
    requires
        rel < start,
    ensures
        hint_at(hints, start, rel) is None,
    decreases hints.len(),
{
    if hints.len() > 0 {
        lemma_hint_after(hints.drop_first(), start + hint_width(hints[0]), rel);
    }
}

/// The footer hint under a click at column `x`; each hint is given by the
/// lengths of its key and action texts. The hints start one column in.
pub fn footer_hint_at(x: u16, area: Rect, hints: &Vec<(usize, usize)>) -> (r: Option<usize>)
    ensures
        r matches Some(i) ==> hint_at(hints@, 1, sat_sub(x, area.x) as nat) == Some(i as nat),
        r is None ==> hint_at(hints@, 1, sat_sub(x, area.x) as nat) is None,
{
    let rel: u64 = x.saturating_sub(area.x) as u64;
    let mut current: u64 = 1;
    let mut i: usize = 0;
    assert(hints@.skip(0) =~= hints@);
    while i < hints.len()
        invariant
            i <= hints.len(),
            rel == sat_sub(x, area.x) as nat,
            rel <= u16::MAX,
            current <= rel + 1,
            hint_at(hints@, 1, rel as nat) == (match hint_at(hints@.skip(i as int), current as nat, rel as nat) {
                Some(j) => Some((j + i) as nat),
                None => None::<nat>,
            }),
        decreases hints.len() - i,
    {
        let (k, a) = hints[i];
        proof {
            let rest = hints@.skip(i as int);
            assert(rest[0] == hints@[i as int]);
            assert(rest.drop_first() =~= hints@.skip(i + 1));
        }
        if rel < current {
            proof {
                lemma_hint_after(hints@.skip(i as int), current as nat, rel as nat);
            }
            return None;
        }
        if k >= 65536 || a >= 65536 {
            return Some(i);
        }
        let w: u64 = (k as u64 + 2) + (a as u64 + 1) + 3;
        if rel < current + w {
            return Some(i);
        }
        current = current + w;
        i = i + 1;
    }
    None
}

// ---------------------------------------------------------------------------
// Tab bar scrolling
// ---------------------------------------------------------------------------

/// The tab bar's scroll offset and what it remembers of the active tab: its
/// index and where it ended when last seen.
#[derive(PartialEq, Eq, Structural, Clone, Copy, Debug)]
pub struct TabScroll {
    pub offset: usize,
    pub last_active: Option<usize>,
    pub active_end: usize,
}

pub open spec fn min_usize(a: usize, b: usize) -> usize {
    if a <= b {
        a
    } else {
        b
    }
}

/// Keeps the active tab in view. `max_scroll` is the largest offset the bar
/// allows at its width, `to_active` the offset that brings the active tab
/// into view and `active_end` where the active tab ends. With no tabs the
/// bar goes back to the start. A newly active tab is scrolled to; when the
/// same tab grew (a spinner appeared) the bar only scrolls right to keep it
/// in view; otherwise the offset is only kept within bounds.
pub open spec fn scroll_step(s: TabScroll, has_tabs: bool, max_scroll: usize, active: usize, to_active: usize, active_end: usize) -> TabScroll {
    if !has_tabs {
        TabScroll { offset: 0, last_active: None, active_end: s.active_end }
    } else {
        let clamped = min_usize(s.offset, max_scroll);
        let target = min_usize(to_active, max_scroll);
        if s.last_active != Some(active) {
            TabScroll { offset: target, last_active: Some(active), active_end }
        } else if active_end > s.active_end && target > clamped {
            TabScroll { offset: target, last_active: s.last_active, active_end }
        } else {
            TabScroll { offset: clamped, last_active: s.last_active, active_end }
        }
    }
}

/// Brings the tab bar's scroll state up to date after a change of tabs.
pub fn ensure_tab_bar_scroll(s: TabScroll, has_tabs: bool, max_scroll: usize, active: usize, to_active: usize, active_end: usize) -> (r: TabScroll)
    ensures
        r == scroll_step(s, has_tabs, max_scroll, active, to_active, active_end),
        has_tabs ==> r.offset <= max_scroll && r.last_active == Some(active),
        has_tabs && s.last_active == Some(active) ==> r.offset >= min_usize(s.offset, max_scroll),
{
    if !has_tabs {
        return TabScroll { offset: 0, last_active: None, active_end: s.active_end };
    }
    let clamped = if s.offset <= max_scroll { s.offset } else { max_scroll };
    let target = if to_active <= max_scroll { to_active } else { max_scroll };
    if s.last_active != Some(active) {
        TabScroll { offset: target, last_active: Some(active), active_end }
    } else if active_end > s.active_end && target > clamped {
        TabScroll { offset: target, last_active: s.last_active, active_end }
    } else {
        TabScroll { offset: clamped, last_active: s.last_active, active_end }
    }
}

// ---------------------------------------------------------------------------
// Where a click goes
// ---------------------------------------------------------------------------

/// The modal dialog that has the mouse, if any.
#[derive(PartialEq, Eq, Structural, Clone, Copy, Debug)]
pub enum ModalDialog {
    Confirmation,
    ModelSelector,
    ReasoningSelector,
    OrchestrationSelector,
    ProviderSelector,
    SettingsMenu,
    WorkspaceDefaults,
    ProjectPicker,
}

/// The parts of the screen that can take a click, as last drawn.
pub struct ScreenAreas {
    pub sidebar: Option<Rect>,
    pub tab_bar: Option<Rect>,
    pub input: Option<Rect>,
    pub status_bar: Option<Rect>,
    pub footer: Option<Rect>,
    /// The raw events list, when the raw events view is showing.
    pub raw_events: Option<Rect>,
}

/// Who handles a click.
#[derive(PartialEq, Eq, Structural, Clone, Copy, Debug)]
pub enum ClickTarget {
    Dialog(ModalDialog),
    Sidebar,
    TabBar,
    Input,
    StatusBar,
    Footer,
    RawEvents,
    Chat,
}

pub open spec fn hits(a: Option<Rect>, x: u16, y: u16) -> bool {
    match a {
        Some(r) => contains(r, x, y),
        None => false,
    }
}

/// A modal dialog takes every click; otherwise the first area in the order
/// sidebar, tab bar, input, status bar, footer, raw events that holds the
/// cell takes it, and the chat area the rest.
pub open spec fn click_target(modal: Option<ModalDialog>, areas: ScreenAreas, x: u16, y: u16) -> ClickTarget {
    match modal {
        Some(d) => ClickTarget::Dialog(d),
        None => if hits(areas.sidebar, x, y) {
            ClickTarget::Sidebar
        } else if hits(areas.tab_bar, x, y) {
            ClickTarget::TabBar
        } else if hits(areas.input, x, y) {
            ClickTarget::Input
        } else if hits(areas.status_bar, x, y) {
            ClickTarget::StatusBar
        } else if hits(areas.footer, x, y) {
            ClickTarget::Footer
        } else if hits(areas.raw_events, x, y) {
            ClickTarget::RawEvents
        } else {
            ClickTarget::Chat
        },
    }
}

fn area_hit(a: Option<Rect>, x: u16, y: u16) -> (b: bool)
    ensures
        b == hits(a, x, y),
{
    match a {
        Some(r) => point_in_rect(x, y, r),
        None => false,
    }
}

/// Routes a click to the part of the screen that handles it.
pub fn route_click(modal: Option<ModalDialog>, areas: &ScreenAreas, x: u16, y: u16) -> (t: ClickTarget)
    ensures
        t == click_target(modal, *areas, x, y),
{
    if let Some(d) = modal {
        return ClickTarget::Dialog(d);
    }
    if area_hit(areas.sidebar, x, y) {
        ClickTarget::Sidebar
    } else if area_hit(areas.tab_bar, x, y) {
        ClickTarget::TabBar
    } else if area_hit(areas.input, x, y) {
        ClickTarget::Input
    } else if area_hit(areas.status_bar, x, y) {
        ClickTarget::StatusBar
    } else if area_hit(areas.footer, x, y) {
        ClickTarget::Footer
    } else if area_hit(areas.raw_events, x, y) {
        ClickTarget::RawEvents
    } else {
        ClickTarget::Chat
    }
}

} // verus!
