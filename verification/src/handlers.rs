//! The decisions behind the main view's buttons, dialogs and tab actions.
use vstd::prelude::*;
use crate::paths::{spec_trim, trim};
use crate::teams::{TeamColor, TeamManager, TeamMember};
use crate::terminal_tabs::{TerminalBackend, TerminalTabs};
use crate::strmap::StrMap;
use crate::text::{decimal_digits, owned, push_decimal, push_str, str_eq};

verus! {

/// What a possibly blank text field holds: its trimmed text, or nothing
/// when that is empty.
pub open spec fn optional_field(input: Seq<char>) -> Option<Seq<char>> {
    if spec_trim(input).len() == 0 {
        None
    } else {
        Some(spec_trim(input))
    }
}

/// The trimmed text of a field, or nothing when it is blank.
pub fn optional_text(input: &str) -> (r: Option<String>)
    ensures
        match r {
            Some(s) => optional_field(input@) == Some(s@),
            None => optional_field(input@) is None,
        },
{
    let t = trim(input);
    if t.unicode_len() == 0 {
        None
    } else {
        Some(t)
    }
}

/// The fields of the add-project dialog: the trimmed path (an error when it
/// is empty) and the optional name.
pub fn add_project_fields(path_input: &str, name_input: &str) -> (r: Result<(String, Option<String>), String>)
    ensures
        spec_trim(path_input@).len() == 0 ==> (r matches Err(e) && e@ == "Path cannot be empty"@),
        spec_trim(path_input@).len() > 0 ==> (r matches Ok((p, n)) && p@ == spec_trim(path_input@) && match n {
            Some(s) => optional_field(name_input@) == Some(s@),
            None => optional_field(name_input@) is None,
        }),
{
    let path = trim(path_input);
    if path.unicode_len() == 0 {
        return Err(owned("Path cannot be empty"));
    }
    Ok((path, optional_text(name_input)))
}

/// The fields of the create dialog: the trimmed branch name and the
/// optional note.
pub fn create_fields(branch_input: &str, note_input: &str) -> (r: (String, Option<String>))
    ensures
        r.0@ == spec_trim(branch_input@),
        match r.1 {
            Some(s) => optional_field(note_input@) == Some(s@),
            None => optional_field(note_input@) is None,
        },
{
    (trim(branch_input), optional_text(note_input))
}

/// Whether a branch name only uses the characters the create dialog allows
/// (`^[a-zA-Z0-9\-_/]*$`): ASCII letters and digits, `-`, `_` and `/`.
pub open spec fn branch_chars_allowed(s: Seq<char>) -> bool {
    forall|i: int| 0 <= i < s.len() ==> {
        let c = #[trigger] s[i];
        ('a' <= c && c <= 'z') || ('A' <= c && c <= 'Z') || ('0' <= c && c <= '9') || c == '-' || c == '_'
            || c == '/'
    }
}

/// The pattern branch names typed into the create dialog must match.
pub open spec fn branch_pattern() -> Seq<char> {
    "^[a-zA-Z0-9\\-_/]*$"@
}

/// Whether `s` matches the regular expression `pattern`
/// (`regex::Regex::new` then `Regex::is_match`).
///
/// Trusted: for the branch-name pattern (the only one admitted), the
/// expression compiles and matches exactly the texts made of the characters
/// in its class, as the crate documents `^`, `$`, `*` and classes.
#[verifier::external_body]
fn regex_is_match(pattern: &str, s: &str) -> (r: bool)
    requires
        pattern@ == branch_pattern(),
    ensures
        r == branch_chars_allowed(s@),
{
    regex::Regex::new(pattern).expect("branch name regex is valid").is_match(s)
}

/// Whether text typed into the branch field is accepted.
pub fn branch_input_allowed(s: &str) -> (r: bool)
    ensures
        r == branch_chars_allowed(s@),
{
    regex_is_match("^[a-zA-Z0-9\\-_/]*$", s)
}

/// Whether a character is a control character (`char::is_control`: the
/// general category Cc, U+0000-U+001F and U+007F-U+009F).
pub open spec fn is_control(c: char) -> bool {
    (c as u32) <= 0x1F || (0x7F <= (c as u32) && (c as u32) <= 0x9F)
}

/// Whether text typed into the note field is accepted: no control
/// characters.
pub fn note_input_allowed(s: &str) -> (r: bool)
    ensures
        r == forall|i: int| 0 <= i < s@.len() ==> !is_control(#[trigger] s@[i]),
{
    let n = s.unicode_len();
    let mut i: usize = 0;
    while i < n
        invariant
            n == s@.len(),
            i <= n,
            forall|j: int| 0 <= j < i ==> !is_control(#[trigger] s@[j]),
        decreases n - i,
    {
        let c = s.get_char(i);
        let v = c as u32;
        if v <= 0x1F || (0x7F <= v && v <= 0x9F) {
            assert(is_control(s@[i as int]));
            return false;
        }
        i = i + 1;
    }
    true
}

/// The agent selected after cycling from position `current` among `count`
/// agents: the next, wrapping; an error when there are none.
pub fn next_agent_index(current: usize, count: usize) -> (r: Result<usize, String>)
    ensures
        count == 0 ==> (r matches Err(e) && e@ == "No agents available. Check kild-core configuration."@),
        count > 0 ==> r == Ok::<usize, String>(((current + 1) % (count as int)) as usize),
{
    if count == 0 {
        return Err(owned("No agents available. Check kild-core configuration."));
    }
    let c: u128 = current as u128;
    let n: u128 = count as u128;
    Ok(((c + 1) % n) as usize)
}

/// The new label of a tab being renamed: the trimmed text, unless blank.
pub fn rename_label(input: &str) -> (r: Option<String>)
    ensures
        match r {
            Some(s) => optional_field(input@) == Some(s@),
            None => optional_field(input@) is None,
        },
{
    optional_text(input)
}

/// Whether the daemon should be started: not while it is starting or
/// known to run.
pub fn should_start_daemon(starting: bool, available: Option<bool>) -> (r: bool)
    ensures
        r == !(starting || available == Some(true)),
{
    !(starting || available == Some(true))
}

/// How a daemon tab is opened for a kild.
#[derive(Clone, Debug, PartialEq, Eq)]
pub enum DaemonTabPlan {
    /// Attach to the kild's running daemon session.
    Attach(String),
    /// Create a shell session with this id first.
    Create(String),
}

/// The id of the `n`-th shell session the dashboard creates for a kild:
/// `<kild>_ui_shell_<n>`.
pub open spec fn ui_shell_id(kild: Seq<char>, n: u64) -> Seq<char> {
    kild + "_ui_shell_"@ + decimal_digits(n as nat)
}

/// How to open a daemon tab for kild `kild_id`: attach to its daemon
/// session when it runs and has one, else create shell session number
/// `counter` (the counter then moves on).
pub fn daemon_tab_plan(kild_id: &str, is_running: bool, daemon_session: Option<String>, counter: u64) -> (r: DaemonTabPlan)
    ensures
        is_running && daemon_session is Some ==> (r matches DaemonTabPlan::Attach(s) && s@ == daemon_session->0@),
        !(is_running && daemon_session is Some) ==> (r matches DaemonTabPlan::Create(s) && s@ == ui_shell_id(kild_id@, counter)),
{
    if is_running {
        if let Some(d) = daemon_session {
            return DaemonTabPlan::Attach(d);
        }
    }
    let mut id = owned(kild_id);
    push_str(&mut id, "_ui_shell_");
    push_decimal(&mut id, counter);
    DaemonTabPlan::Create(id)
}

/// What clicking a tab does.
#[derive(Clone, Copy, Debug, PartialEq, Eq, Structural)]
pub enum TabClick {
    /// Start renaming the tab, which is already active.
    Rename,
    /// Make the tab active.
    Select,
}

/// What clicking tab `idx` does, given the active tab (if the kild has
/// tabs): clicking the active tab renames it.
pub fn tab_click(active: Option<usize>, idx: usize) -> (r: TabClick)
    ensures
        r == (if active == Some(idx) { TabClick::Rename } else { TabClick::Select }),
{
    if active == Some(idx) {
        TabClick::Rename
    } else {
        TabClick::Select
    }
}

/// Whether a tab backend is daemon session `id`.
pub open spec fn is_daemon(b: TerminalBackend, id: Seq<char>) -> bool {
    match b {
        TerminalBackend::Daemon { daemon_session_id } => daemon_session_id@ == id,
        TerminalBackend::Local => false,
    }
}

/// Whether the daemon session `id` has a tab.
pub open spec fn has_daemon_tab<V>(tabs: Seq<crate::terminal_tabs::TabEntry<V>>, id: Seq<char>) -> bool {
    exists|i: int| 0 <= i < tabs.len() && is_daemon((#[trigger] tabs[i]).backend, id)
}

impl<V> TerminalTabs<V> {
    /// Whether one of the tabs shows daemon session `id`.
    pub fn has_daemon_session(&self, id: &str) -> (r: bool)
        ensures
            r == has_daemon_tab(self.tabs@, id@),
    {
        let mut i: usize = 0;
        while i < self.tabs.len()
            invariant
                i <= self.tabs@.len(),
                forall|j: int| 0 <= j < i ==> !is_daemon((#[trigger] self.tabs@[j]).backend, id@),
            decreases self.tabs@.len() - i,
        {
            let found = match &self.tabs[i].backend {
                TerminalBackend::Daemon { daemon_session_id } => str_eq(daemon_session_id.as_str(), id),
                TerminalBackend::Local => false,
            };
            if found {
                return true;
            }
            i = i + 1;
        }
        false
    }
}

/// A teammate tab to open: the kild, the teammate's daemon session, name
/// and color.
#[derive(Clone, Debug)]
pub struct TeammateTab {
    pub kild_id: String,
    pub daemon_session_id: String,
    pub name: String,
    pub color: TeamColor,
}

/// The teammate tabs to open for one kild: for each of its teammates with
/// a daemon session that has no tab yet, in order.
pub open spec fn missing_teammate_tabs<V>(
    kild: Seq<char>,
    mates: Seq<TeamMember>,
    tabs: Option<Seq<crate::terminal_tabs::TabEntry<V>>>,
) -> Seq<(Seq<char>, Seq<char>, Seq<char>, TeamColor)>
    decreases mates.len(),
{
    if mates.len() == 0 {
        Seq::empty()
    } else {
        let prev = missing_teammate_tabs(kild, mates.drop_last(), tabs);
        let m = mates.last();
        match m.daemon_session_id {
            Some(d) => if tabs matches Some(t) && has_daemon_tab(t, d@) {
                prev
            } else {
                prev.push((kild, d@, m.name@, m.color))
            },
            None => prev,
        }
    }
}

/// The content of a list of teammate tabs.
pub open spec fn teammate_tab_views(v: Seq<TeammateTab>) -> Seq<(Seq<char>, Seq<char>, Seq<char>, TeamColor)> {
    v.map_values(|t: TeammateTab| (t.kild_id@, t.daemon_session_id@, t.name@, t.color))
}

/// The teammate tabs to open for kild `kild_id` whose teammates are
/// `mates`, given its tabs.
pub fn teammate_tabs_for<V>(kild_id: &str, mates: &Vec<&TeamMember>, tabs: Option<&TerminalTabs<V>>) -> (r: Vec<TeammateTab>)
    ensures
        teammate_tab_views(r@) == missing_teammate_tabs(
            kild_id@,
            mates@.map_values(|m: &TeamMember| *m),
            match tabs {
                Some(t) => Some(t.tabs@),
                None => None,
            },
        ),
{
    let ghost ms = mates@.map_values(|m: &TeamMember| *m);
    let ghost ts = match tabs {
        Some(t) => Some(t.tabs@),
        None => None,
    };
    let mut out: Vec<TeammateTab> = Vec::new();
    let mut i: usize = 0;
    while i < mates.len()
        invariant
            i <= mates@.len(),
            ms == mates@.map_values(|m: &TeamMember| *m),
            ts == (match tabs {
                Some(t) => Some(t.tabs@),
                None => None,
            }),
            teammate_tab_views(out@) == missing_teammate_tabs(kild_id@, ms.take(i as int), ts),
        decreases mates@.len() - i,
    {
        proof {
            assert(ms.take(i + 1).drop_last() == ms.take(i as int));
            assert(ms.take(i + 1).last() == *mates@[i as int]);
        }
        let m = mates[i];
        if let Some(d) = &m.daemon_session_id {
            let exists = match tabs {
                Some(t) => t.has_daemon_session(d.as_str()),
                None => false,
            };
            if !exists {
                let ghost before = out@;
                out.push(TeammateTab {
                    kild_id: owned(kild_id),
                    daemon_session_id: d.clone(),
                    name: m.name.clone(),
                    color: m.color,
                });
                proof {
                    assert(teammate_tab_views(out@) =~= teammate_tab_views(before).push(teammate_tab_views(out@).last()));
                }
            }
        }
        i = i + 1;
    }
    proof {
        assert(ms.take(mates@.len() as int) == ms);
    }
    out
}

/// The members other than the leader of the team in session `id`.
pub open spec fn teammates_of(teams: crate::teams::TeamsView, id: Seq<char>) -> Seq<TeamMember> {
    match teams.by_session.get(id) {
        Some(t) => t.members@.filter(|m: TeamMember| !m.is_leader),
        None => Seq::empty(),
    }
}

/// The teammate tabs to open for the given kilds, kild by kild.
pub open spec fn all_missing_tabs<V>(
    ids: Seq<Seq<char>>,
    teams: crate::teams::TeamsView,
    tabs: Map<Seq<char>, TerminalTabs<V>>,
) -> Seq<(Seq<char>, Seq<char>, Seq<char>, TeamColor)>
    decreases ids.len(),
{
    if ids.len() == 0 {
        Seq::empty()
    } else {
        let id = ids.last();
        all_missing_tabs(ids.drop_last(), teams, tabs) + missing_teammate_tabs(
            id,
            teammates_of(teams, id),
            match tabs.get(id) {
                Some(t) => Some(t.tabs@),
                None => None,
            },
        )
    }
}

/// The teammate tabs to open for the given kilds: for each kild, the
/// teammates with a daemon session that has no tab yet.
pub fn teammate_tabs_to_add<V>(kild_ids: &Vec<String>, teams: &TeamManager, tabs: &StrMap<TerminalTabs<V>>) -> (r: Vec<TeammateTab>)
    ensures
        teammate_tab_views(r@) == all_missing_tabs(kild_ids@.map_values(|s: String| s@), teams@, tabs@),
{
    let ghost ids = kild_ids@.map_values(|s: String| s@);
    let mut out: Vec<TeammateTab> = Vec::new();
    let mut i: usize = 0;
    while i < kild_ids.len()
        invariant
            i <= kild_ids@.len(),
            ids == kild_ids@.map_values(|s: String| s@),
            teammate_tab_views(out@) == all_missing_tabs(ids.take(i as int), teams@, tabs@),
        decreases kild_ids@.len() - i,
    {
        proof {
            assert(ids.take(i + 1).drop_last() == ids.take(i as int));
            assert(ids.take(i + 1).last() == kild_ids@[i as int]@);
        }
        let id = kild_ids[i].as_str();
        let mates = teams.teammates_for_session(id);
        let ghost before = out@;
        if mates.len() > 0 {
            let mut add = teammate_tabs_for(id, &mates, tabs.get(id));
            let ghost added = add@;
            out.append(&mut add);
            proof {
                assert(teammate_tab_views(out@) =~= teammate_tab_views(before) + teammate_tab_views(added));
            }
        } else {
            proof {
                assert(mates@.map_values(|m: &TeamMember| *m) =~= Seq::<TeamMember>::empty());
                assert(missing_teammate_tabs(id@, Seq::<TeamMember>::empty(), match tabs@.get(id@) {
                    Some(t) => Some(t.tabs@),
                    None => None,
                }) =~= Seq::empty());
            }
        }
        i = i + 1;
    }
    proof {
        assert(ids.take(kild_ids@.len() as int) == ids);
    }
    out
}

/// Drops the tabs of kilds that no longer exist (`live` lists those that
/// do) and forgets the active kild if it is gone; returns whether it was
/// forgotten (focus then goes back to the dashboard).
pub fn prune_terminal_cache<V>(tabs: &mut StrMap<TerminalTabs<V>>, live: &Vec<String>, active: &mut Option<String>) -> (cleared: bool)
    ensures
        final(tabs)@ == old(tabs)@.restrict(live@.map_values(|s: String| s@).to_set()),
        cleared == (*old(active) matches Some(a) && !live@.map_values(|s: String| s@).contains(a@)),
        cleared ==> *final(active) is None,
        !cleared ==> *final(active) == *old(active),
{
    tabs.retain_keys(live);
    let gone = match active {
        Some(a) => {
            let mut found = false;
            let mut i: usize = 0;
            while i < live.len()
                invariant
                    i <= live@.len(),
                    found == exists|j: int| 0 <= j < i && (#[trigger] live@[j])@ == a@,
                decreases live@.len() - i,
            {
                if str_eq(live[i].as_str(), a.as_str()) {
                    found = true;
                }
                i = i + 1;
            }
            proof {
                let lv = live@.map_values(|s: String| s@);
                if found {
                    let j = choose|j: int| 0 <= j < live@.len() && (#[trigger] live@[j])@ == a@;
                    assert(lv[j] == a@);
                } else {
                    assert forall|j: int| 0 <= j < lv.len() implies #[trigger] lv[j] != a@ by {
                        assert(lv[j] == live@[j]@);
                    }
                }
            }
            !found
        },
        None => false,
    };
    if gone {
        *active = None;
    }
    gone
}

/// How selecting a kild opens its terminal.
#[derive(Clone, Debug, PartialEq, Eq)]
pub enum SelectPlan {
    /// Show the tabs the kild already has.
    UseTabs,
    /// Attach a tab to the kild's daemon session.
    AttachDaemon(String),
    /// Open a local shell tab in the kild's worktree.
    OpenLocal,
}

/// How selecting a kild opens its terminal: its tabs when it has some; else
/// a tab attached to its daemon session when it runs in the daemon and has
/// one; else a local shell.
pub fn select_plan(has_tabs: bool, daemon_runtime: bool, daemon_session: Option<String>) -> (r: SelectPlan)
    ensures
        has_tabs ==> r == SelectPlan::UseTabs,
        !has_tabs && daemon_runtime && daemon_session is Some ==> (r matches SelectPlan::AttachDaemon(s) && s@ == daemon_session->0@),
        !has_tabs && !(daemon_runtime && daemon_session is Some) ==> r == SelectPlan::OpenLocal,
{
    if has_tabs {
        return SelectPlan::UseTabs;
    }
    if daemon_runtime {
        if let Some(d) = daemon_session {
            return SelectPlan::AttachDaemon(d);
        }
    }
    SelectPlan::OpenLocal
}

/// The error shown when a kild's terminal window cannot be focused because
/// the session does not record it, if it does not.
pub fn focus_window_missing(terminal_known: bool, window_known: bool) -> (r: Option<&'static str>)
    ensures
        terminal_known && window_known ==> r is None,
        !(terminal_known && window_known) ==> (r matches Some(m) && m@ == "Terminal window info not available. This session was created before window tracking was added."@),
{
    if terminal_known && window_known {
        None
    } else {
        Some("Terminal window info not available. This session was created before window tracking was added.")
    }
}

/// The error shown when focusing a terminal window failed.
pub fn focus_failed_message(err: &str) -> (r: String)
    ensures
        r@ == "Failed to focus terminal: "@ + err@,
{
    let mut s = owned("Failed to focus terminal: ");
    push_str(&mut s, err);
    s
}

/// Whether the kild list is reloaded after an operation on many kilds:
/// when some kild was handled or some failed.
pub fn refresh_after_bulk(handled: usize, failures: usize) -> (r: bool)
    ensures
        r == (handled > 0 || failures > 0),
{
    handled > 0 || failures > 0
}

} // verus!
