//! Which view the main area shows, where keyboard focus is, moving between
//! kilds, tabs and workspaces, and where each key press goes.
use vstd::prelude::*;
use crate::keybindings::{binding_matches, jump_matches, Keystroke, UiKeybindings};
use crate::text::{str_eq};

verus! {

/// Which region of the window has keyboard focus.
#[derive(Clone, Copy, Debug, PartialEq, Eq, Structural)]
pub enum FocusRegion {
    Dashboard,
    Terminal,
}

/// Which view the main area shows.
#[derive(Clone, Copy, Debug, PartialEq, Eq, Structural)]
pub enum ActiveView {
    /// Terminal tabs of the selected kild.
    Control,
    /// Overview of all kilds.
    Dashboard,
    /// Details of one kild, opened from the overview.
    Detail,
}

/// The view after toggling: the overview from the terminals, the terminals
/// from the overview or a kild's details.
pub open spec fn toggled(v: ActiveView) -> ActiveView {
    match v {
        ActiveView::Control => ActiveView::Dashboard,
        ActiveView::Dashboard | ActiveView::Detail => ActiveView::Control,
    }
}

/// Toggles between the terminal view and the overview.
pub fn toggle_view(v: ActiveView) -> (r: ActiveView)
    ensures
        r == toggled(v),
{
    match v {
        ActiveView::Control => ActiveView::Dashboard,
        ActiveView::Dashboard | ActiveView::Detail => ActiveView::Control,
    }
}

/// Where focus goes after toggling to `view`: the terminal when the
/// terminal view is shown and a terminal is active, else the dashboard.
pub fn focus_after_toggle(view: ActiveView, has_active_terminal: bool) -> (r: FocusRegion)
    ensures
        r == (if view == ActiveView::Control && has_active_terminal {
            FocusRegion::Terminal
        } else {
            FocusRegion::Dashboard
        }),
{
    if view == ActiveView::Control && has_active_terminal {
        FocusRegion::Terminal
    } else {
        FocusRegion::Dashboard
    }
}

/// Whether the overview tab is highlighted: for the overview and for a
/// kild's details.
pub fn is_dashboard_tab(v: ActiveView) -> (r: bool)
    ensures
        r == (v == ActiveView::Dashboard || v == ActiveView::Detail),
{
    match v {
        ActiveView::Control => false,
        ActiveView::Dashboard | ActiveView::Detail => true,
    }
}

/// The first position of `id` in `ids`, if it occurs.
pub open spec fn first_position(ids: Seq<Seq<char>>, id: Seq<char>) -> Option<int> {
    if exists|i: int| 0 <= i < ids.len() && ids[i] == id {
        Some(choose|i: int| 0 <= i < ids.len() && ids[i] == id && forall|j: int| 0 <= j < i ==> ids[j] != id)
    } else {
        None
    }
}

/// The views of a list of strings.
pub open spec fn id_views(ids: Seq<String>) -> Seq<Seq<char>> {
    ids.map_values(|s: String| s@)
}

/// The position of `id` in `ids`, the first if it occurs more than once.
pub fn position_of(ids: &Vec<String>, id: &str) -> (r: Option<usize>)
    ensures
        index_view(r) == first_position(id_views(ids@), id@),
        r matches Some(i) ==> i < ids@.len(),
{
    let ghost v = id_views(ids@);
    let mut i: usize = 0;
    while i < ids.len()
        invariant
            v == id_views(ids@),
            i <= ids@.len(),
            forall|j: int| 0 <= j < i ==> ids@[j]@ != id@,
        decreases ids@.len() - i,
    {
        if str_eq(ids[i].as_str(), id) {
            proof {
                assert(v[i as int] == id@);
                let c = choose|k: int| 0 <= k < v.len() && v[k] == id@ && forall|j: int| 0 <= j < k ==> v[j] != id@;
                assert(0 <= c < v.len() && v[c] == id@ && forall|j: int| 0 <= j < c ==> v[j] != id@);
                if c < i {
                    assert(ids@[c]@ == v[c]);
                } else if c > i {
                    assert(v[i as int] != id@);
                }
            }
            return Some(i);
        }
        i = i + 1;
    }
    proof {
        assert forall|k: int| 0 <= k < v.len() implies v[k] != id@ by {
            assert(v[k] == ids@[k]@);
        }
    }
    None
}

/// The kild after the one at `current` in a list of `len`, wrapping to the
/// first; the first when none is current; none in an empty list.
pub open spec fn next_index(current: Option<int>, len: int) -> Option<int> {
    if len == 0 {
        None
    } else {
        match current {
            Some(i) => Some((i + 1) % len),
            None => Some(0),
        }
    }
}

/// The kild before the one at `current`, wrapping to the last; the last when
/// none is current or the first is; none in an empty list.
pub open spec fn prev_index(current: Option<int>, len: int) -> Option<int> {
    if len == 0 {
        None
    } else {
        match current {
            Some(i) => if i == 0 { Some(len - 1) } else { Some(i - 1) },
            None => Some(len - 1),
        }
    }
}

/// The content of an optional position.
pub open spec fn index_view(o: Option<usize>) -> Option<int> {
    match o {
        Some(i) => Some(i as int),
        None => None,
    }
}

/// The position to move to for "next kild" in a list of `len`.
pub fn next_kild_index(current: Option<usize>, len: usize) -> (r: Option<usize>)
    requires
        current matches Some(i) ==> i < len,
    ensures
        index_view(r) == next_index(index_view(current), len as int),
{
    if len == 0 {
        return None;
    }
    match current {
        Some(i) => Some((i + 1) % len),
        None => Some(0),
    }
}

/// The position to move to for "previous kild" in a list of `len`.
pub fn prev_kild_index(current: Option<usize>, len: usize) -> (r: Option<usize>)
    requires
        current matches Some(i) ==> i < len,
    ensures
        index_view(r) == prev_index(index_view(current), len as int),
{
    if len == 0 {
        return None;
    }
    match current {
        Some(0) | None => Some(len - 1),
        Some(i) => Some(i - 1),
    }
}

/// Where the selection is in the displayed list, if it is.
pub open spec fn selected_position(ids: Seq<String>, selected: Option<Seq<char>>) -> Option<int> {
    match selected {
        Some(s) => first_position(id_views(ids), s),
        None => None,
    }
}

/// The content of an optional string slice.
pub open spec fn str_option(o: Option<&str>) -> Option<Seq<char>> {
    match o {
        Some(s) => Some(s@),
        None => None,
    }
}

/// The position in the displayed kilds `ids` to select for "next kild":
/// after the selected kild (wrapping), or the first when the selection is
/// not displayed; none when nothing is displayed.
pub fn next_kild(ids: &Vec<String>, selected: Option<&str>) -> (r: Option<usize>)
    ensures
        index_view(r) == next_index(selected_position(ids@, str_option(selected)), ids@.len() as int),
{
    let current = match selected {
        Some(s) => position_of(ids, s),
        None => None,
    };
    next_kild_index(current, ids.len())
}

/// The position in the displayed kilds `ids` to select for "previous kild":
/// before the selected kild (wrapping), or the last when the selection is
/// not displayed; none when nothing is displayed.
pub fn prev_kild(ids: &Vec<String>, selected: Option<&str>) -> (r: Option<usize>)
    ensures
        index_view(r) == prev_index(selected_position(ids@, str_option(selected)), ids@.len() as int),
{
    let current = match selected {
        Some(s) => position_of(ids, s),
        None => None,
    };
    prev_kild_index(current, ids.len())
}

/// The workspace after `active` among `count`, wrapping.
pub fn next_workspace_index(active: usize, count: usize) -> (r: usize)
    requires
        count > 0,
    ensures
        r == (active + 1) % (count as int),
{
    let a: u128 = active as u128;
    let c: u128 = count as u128;
    let r: u128 = (a + 1) % c;
    r as usize
}

/// The workspace before `active` among `count`, wrapping to the last.
pub fn prev_workspace_index(active: usize, count: usize) -> (r: usize)
    requires
        count > 0,
    ensures
        r == (if active == 0 { count - 1 } else { active - 1 }),
{
    if active == 0 {
        count - 1
    } else {
        active - 1
    }
}

/// Moving to the next kild and back to the previous returns to where the
/// selection was, when it was displayed.
pub proof fn lemma_next_then_prev(i: int, len: int)
    requires
        0 <= i < len,
    ensures
        next_index(Some(i), len) matches Some(n) && prev_index(Some(n), len) == Some(i),
{
    if i + 1 < len {
        assert((i + 1) % len == i + 1) by (nonlinear_arith)
            requires
                0 <= i + 1 < len,
        ;
    } else {
        assert((i + 1) % len == 0) by (nonlinear_arith)
            requires
                i + 1 == len,
                len > 0,
        ;
    }
}

/// Next and previous kild always land inside a non-empty list.
pub proof fn lemma_kild_moves_in_range(current: Option<int>, len: int)
    requires
        len > 0,
        current matches Some(i) ==> 0 <= i < len,
    ensures
        next_index(current, len) matches Some(n) && 0 <= n < len,
        prev_index(current, len) matches Some(p) && 0 <= p < len,
{
    if let Some(i) = current {
        assert(0 <= (i + 1) % len < len) by (nonlinear_arith)
            requires
                len > 0,
                0 <= i,
        ;
    }
}

/// Whether `c` is an ASCII digit.
pub open spec fn is_digit(c: char) -> bool {
    '0' <= c && c <= '9'
}

/// The number written by the ASCII digits `s`.
pub open spec fn digits_value(s: Seq<char>) -> int
    decreases s.len(),
{
    if s.len() == 0 {
        0
    } else {
        digits_value(s.drop_last()) * 10 + (s.last() as int - 48)
    }
}

/// The text after an optional leading `+`.
pub open spec fn unsigned_digits(key: Seq<char>) -> Seq<char> {
    if key.len() > 0 && key[0] == '+' {
        key.drop_first()
    } else {
        key
    }
}

/// Whether every character of `d` is an ASCII digit.
pub open spec fn all_digits(d: Seq<char>) -> bool {
    forall|i: int| 0 <= i < d.len() ==> is_digit(#[trigger] d[i])
}

/// The digit 1 to 9 a key names when read as a number (`usize::from_str`:
/// an optional `+`, then decimal digits), if it names one.
pub open spec fn jump_digit(key: Seq<char>) -> Option<int> {
    let d = unsigned_digits(key);
    if d.len() > 0 && all_digits(d) && 1 <= digits_value(d) <= 9 {
        Some(digits_value(d))
    } else {
        None
    }
}

/// Reads a key name as a number and keeps it when it is 1 to 9.
pub fn parse_jump_digit(key: &str) -> (r: Option<usize>)
    ensures
        index_view(r) == jump_digit(key@),
{
    let n = key.unicode_len();
    let start: usize = if n > 0 && key.get_char(0) == '+' { 1 } else { 0 };
    let ghost d = unsigned_digits(key@);
    if start >= n {
        return None;
    }
    let mut capped: usize = 0;
    let mut i: usize = start;
    while i < n
        invariant
            n == key@.len(),
            start <= i <= n,
            start == 0 || start == 1,
            d == key@.subrange(start as int, n as int),
            d == unsigned_digits(key@),
            forall|j: int| 0 <= j < i - start ==> is_digit(#[trigger] d[j]),
            capped == (if digits_value(d.subrange(0, i - start)) >= 10 {
                10
            } else {
                digits_value(d.subrange(0, i - start))
            }),
            digits_value(d.subrange(0, i - start)) >= 0,
        decreases n - i,
    {
        let c = key.get_char(i);
        let ghost pre = d.subrange(0, i - start);
        let ghost next = d.subrange(0, i + 1 - start);
        proof {
            assert(next.drop_last() == pre);
            assert(next.last() == c);
        }
        if c < '0' || c > '9' {
            assert(!is_digit(d[i - start]));
            return None;
        }
        let digit: usize = (c as u32 - 48) as usize;
        if capped < 10 {
            let v = capped * 10 + digit;
            capped = if v >= 10 { 10 } else { v };
        }
        i = i + 1;
    }
    proof {
        assert(d.subrange(0, n - start) == d);
    }
    if capped >= 1 && capped <= 9 {
        Some(capped)
    } else {
        None
    }
}

/// Which dialog is open.
#[derive(Clone, Copy, Debug, PartialEq, Eq, Structural)]
pub enum DialogKind {
    Closed,
    Confirm,
    AddProject,
    Create,
}

/// What the main view knows when a key is pressed.
#[derive(Clone, Copy, Debug)]
pub struct KeyContext {
    /// A tab is being renamed.
    pub renaming_tab: bool,
    pub focus_region: FocusRegion,
    pub active_view: ActiveView,
    /// How many tabs the active kild's terminal has, if a kild is active.
    pub active_tab_count: Option<usize>,
    /// A kild is selected.
    pub has_selection: bool,
    /// A terminal view is active.
    pub has_active_terminal_view: bool,
    pub workspace_count: usize,
    pub active_workspace: usize,
    pub dialog: DialogKind,
}

/// What the main view does with a key press.
#[derive(Clone, Copy, Debug, PartialEq, Eq, Structural)]
pub enum KeyAction {
    /// Nothing, and the key goes no further.
    Ignore,
    /// Redraw only.
    Redraw,
    CommitRename,
    CancelRename,
    /// Move focus from the terminal to the dashboard.
    FocusDashboard,
    /// Switch to the next tab (or the previous when `backward`) and focus it.
    CycleTabs { backward: bool },
    /// Show the terminal view and open the selected kild.
    ShowControlAndSelect,
    /// Show the terminal view.
    ShowControl,
    /// Close the active terminal and focus the dashboard.
    DeactivateTerminal,
    /// Open the selected kild.
    SelectCurrent,
    /// Open the kild at this position of the displayed list.
    JumpToKild { index: usize },
    NextTeammateTab,
    PrevTeammateTab,
    /// Show this workspace, in the terminal view.
    SwitchWorkspace { index: usize },
    NextKild,
    PrevKild,
    ToggleView,
    /// Go from a kild's details back to the overview.
    BackToDashboard,
    /// Let the terminal have the key.
    PropagateToTerminal,
    CancelConfirm,
    CancelAddProject,
    CancelCreate,
    SubmitCreate,
    CycleAgent,
}

/// How the main view handles key `key` with modifiers `m` in context `c`,
/// in priority order: renaming a tab takes Enter and Escape and swallows
/// the rest; the focus-escape shortcut leaves the terminal; Ctrl+Tab cycles
/// tabs; Ctrl+T toggles the terminal; the jump modifier with 1-9 opens a
/// kild; Cmd+Shift+J/K cycle teammate tabs; the workspace, kild and view
/// shortcuts; Escape leaves a kild's details; a focused terminal in the
/// terminal view gets the key; otherwise the open dialog may take it.
pub open spec fn key_action(c: KeyContext, key: Seq<char>, m: crate::keybindings::Modifiers, b: UiKeybindings) -> KeyAction {
    if c.renaming_tab {
        if key == "enter"@ {
            KeyAction::CommitRename
        } else if key == "escape"@ {
            KeyAction::CancelRename
        } else {
            KeyAction::Ignore
        }
    } else if binding_matches(b.terminal.focus_escape@, key, m) && c.focus_region == FocusRegion::Terminal {
        KeyAction::FocusDashboard
    } else if key == "tab"@ && m.control {
        match c.active_tab_count {
            Some(n) if n > 1 => KeyAction::CycleTabs { backward: m.shift },
            _ => KeyAction::Ignore,
        }
    } else if key == "t"@ && m.control {
        if c.active_view == ActiveView::Dashboard || c.active_view == ActiveView::Detail {
            if c.has_selection { KeyAction::ShowControlAndSelect } else { KeyAction::ShowControl }
        } else if c.has_active_terminal_view {
            KeyAction::DeactivateTerminal
        } else if c.has_selection {
            KeyAction::SelectCurrent
        } else {
            KeyAction::Redraw
        }
    } else if jump_digit(key) is Some && jump_matches(b.navigation.jump_modifier, m) {
        KeyAction::JumpToKild { index: (jump_digit(key)->0 - 1) as usize }
    } else if m.platform && m.shift && key == "j"@ {
        KeyAction::NextTeammateTab
    } else if m.platform && m.shift && key == "k"@ {
        KeyAction::PrevTeammateTab
    } else if binding_matches(b.navigation.prev_workspace@, key, m) {
        if c.workspace_count > 1 {
            KeyAction::SwitchWorkspace {
                index: (if c.active_workspace == 0 { c.workspace_count - 1 } else { c.active_workspace - 1 }) as usize,
            }
        } else {
            KeyAction::Redraw
        }
    } else if binding_matches(b.navigation.next_workspace@, key, m) {
        if c.workspace_count > 1 {
            KeyAction::SwitchWorkspace { index: ((c.active_workspace + 1) % (c.workspace_count as int)) as usize }
        } else {
            KeyAction::Redraw
        }
    } else if binding_matches(b.navigation.next_kild@, key, m) {
        KeyAction::NextKild
    } else if binding_matches(b.navigation.prev_kild@, key, m) {
        KeyAction::PrevKild
    } else if binding_matches(b.navigation.toggle_view@, key, m) {
        KeyAction::ToggleView
    } else if key == "escape"@ && c.active_view == ActiveView::Detail {
        KeyAction::BackToDashboard
    } else if c.active_view == ActiveView::Control && c.focus_region == FocusRegion::Terminal
        && c.has_active_terminal_view {
        KeyAction::PropagateToTerminal
    } else {
        match c.dialog {
            DialogKind::Closed => KeyAction::Ignore,
            DialogKind::Confirm => if key == "escape"@ { KeyAction::CancelConfirm } else { KeyAction::Ignore },
            DialogKind::AddProject => if key == "escape"@ { KeyAction::CancelAddProject } else { KeyAction::Ignore },
            DialogKind::Create => if key == "escape"@ {
                KeyAction::CancelCreate
            } else if key == "enter"@ {
                KeyAction::SubmitCreate
            } else if key == "tab"@ {
                KeyAction::CycleAgent
            } else {
                KeyAction::Ignore
            },
        }
    }
}

/// Decides how the main view handles a key press (see [`key_action`]).
pub fn route_key(c: &KeyContext, keystroke: &Keystroke, bindings: &UiKeybindings) -> (r: KeyAction)
    ensures
        r == key_action(*c, keystroke.key@, keystroke.modifiers, *bindings),
{
    let key = keystroke.key.as_str();
    let m = keystroke.modifiers;
    if c.renaming_tab {
        if str_eq(key, "enter") {
            return KeyAction::CommitRename;
        } else if str_eq(key, "escape") {
            return KeyAction::CancelRename;
        }
        return KeyAction::Ignore;
    }
    if bindings.terminal.focus_escape.matches(keystroke) && c.focus_region == FocusRegion::Terminal {
        return KeyAction::FocusDashboard;
    }
    if str_eq(key, "tab") && m.control {
        return match c.active_tab_count {
            Some(n) => if n > 1 { KeyAction::CycleTabs { backward: m.shift } } else { KeyAction::Ignore },
            None => KeyAction::Ignore,
        };
    }
    if str_eq(key, "t") && m.control {
        if c.active_view == ActiveView::Dashboard || c.active_view == ActiveView::Detail {
            return if c.has_selection { KeyAction::ShowControlAndSelect } else { KeyAction::ShowControl };
        } else if c.has_active_terminal_view {
            return KeyAction::DeactivateTerminal;
        } else if c.has_selection {
            return KeyAction::SelectCurrent;
        }
        return KeyAction::Redraw;
    }
    if let Some(d) = parse_jump_digit(key) {
        if bindings.navigation.jump_modifier.matches(&m) {
            return KeyAction::JumpToKild { index: d - 1 };
        }
    }
    if m.platform && m.shift && str_eq(key, "j") {
        return KeyAction::NextTeammateTab;
    }
    if m.platform && m.shift && str_eq(key, "k") {
        return KeyAction::PrevTeammateTab;
    }
    if bindings.navigation.prev_workspace.matches(keystroke) {
        if c.workspace_count > 1 {
            return KeyAction::SwitchWorkspace { index: prev_workspace_index(c.active_workspace, c.workspace_count) };
        }
        return KeyAction::Redraw;
    }
    if bindings.navigation.next_workspace.matches(keystroke) {
        if c.workspace_count > 1 {
            return KeyAction::SwitchWorkspace { index: next_workspace_index(c.active_workspace, c.workspace_count) };
        }
        return KeyAction::Redraw;
    }
    if bindings.navigation.next_kild.matches(keystroke) {
        return KeyAction::NextKild;
    }
    if bindings.navigation.prev_kild.matches(keystroke) {
        return KeyAction::PrevKild;
    }
    if bindings.navigation.toggle_view.matches(keystroke) {
        return KeyAction::ToggleView;
    }
    if str_eq(key, "escape") && c.active_view == ActiveView::Detail {
        return KeyAction::BackToDashboard;
    }
    if c.active_view == ActiveView::Control && c.focus_region == FocusRegion::Terminal
        && c.has_active_terminal_view {
        return KeyAction::PropagateToTerminal;
    }
    match c.dialog {
        DialogKind::Closed => KeyAction::Ignore,
        DialogKind::Confirm => if str_eq(key, "escape") { KeyAction::CancelConfirm } else { KeyAction::Ignore },
        DialogKind::AddProject => if str_eq(key, "escape") { KeyAction::CancelAddProject } else { KeyAction::Ignore },
        DialogKind::Create => {
            if str_eq(key, "escape") {
                KeyAction::CancelCreate
            } else if str_eq(key, "enter") {
                KeyAction::SubmitCreate
            } else if str_eq(key, "tab") {
                KeyAction::CycleAgent
            } else {
                KeyAction::Ignore
            }
        },
    }
}

} // verus!
