//! What the dashboard shows about kilds: their status, how the sidebar
//! groups them, the alerts in the status bar, and the keyboard hints.
use vstd::prelude::*;
use crate::errors::{ErrorView, OperationErrors};
use crate::navigation::ActiveView;
use crate::text::{decimal_digits, owned, push_decimal, push_str, uppercase_text, split_char, split_on, to_uppercase, views};

verus! {

/// Whether a kild's agent process runs.
#[derive(Clone, Copy, Debug, PartialEq, Eq, Structural)]
pub enum ProcessStatus {
    Running,
    Stopped,
    Unknown,
}

/// Whether a kild's worktree has uncommitted changes.
#[derive(Clone, Copy, Debug, PartialEq, Eq, Structural)]
pub enum GitStatus {
    Clean,
    Dirty,
    Unknown,
}

/// What the dashboard knows of one kild.
#[derive(Clone, Debug)]
pub struct KildDisplay {
    /// The kild's session id.
    pub id: String,
    /// The kild's branch.
    pub branch: String,
    pub process_status: ProcessStatus,
    pub git_status: GitStatus,
}

/// How a kild's status is drawn.
#[derive(Clone, Copy, Debug, PartialEq, Eq, Structural, Default)]
pub enum Status {
    #[default]
    Active,
    Stopped,
    Crashed,
}

impl Status {
    /// The label on a status badge.
    pub fn label(&self) -> (r: &'static str)
        ensures
            r@ == match *self {
                Status::Active => "Active"@,
                Status::Stopped => "Stopped"@,
                Status::Crashed => "Crashed"@,
            },
    {
        match self {
            Status::Active => "Active",
            Status::Stopped => "Stopped",
            Status::Crashed => "Crashed",
        }
    }

    /// Whether the status is drawn with a glow: all but stopped.
    pub fn has_glow(&self) -> (r: bool)
        ensures
            r == (*self != Status::Stopped),
    {
        match self {
            Status::Active | Status::Crashed => true,
            Status::Stopped => false,
        }
    }
}

/// The status shown in lists: active when running, stopped otherwise.
pub fn list_status(p: ProcessStatus) -> (r: Status)
    ensures
        r == (if p == ProcessStatus::Running { Status::Active } else { Status::Stopped }),
{
    match p {
        ProcessStatus::Running => Status::Active,
        ProcessStatus::Stopped | ProcessStatus::Unknown => Status::Stopped,
    }
}

/// The status shown on a kild's details: an unknown process counts as
/// crashed.
pub fn detail_status(p: ProcessStatus) -> (r: Status)
    ensures
        r == match p {
            ProcessStatus::Running => Status::Active,
            ProcessStatus::Stopped => Status::Stopped,
            ProcessStatus::Unknown => Status::Crashed,
        },
{
    match p {
        ProcessStatus::Running => Status::Active,
        ProcessStatus::Stopped => Status::Stopped,
        ProcessStatus::Unknown => Status::Crashed,
    }
}

/// The text describing a worktree's state on a kild's details.
pub fn git_status_text(g: GitStatus) -> (r: &'static str)
    ensures
        r@ == match g {
            GitStatus::Clean => "Clean"@,
            GitStatus::Dirty => "Uncommitted"@,
            GitStatus::Unknown => "Unknown"@,
        },
{
    match g {
        GitStatus::Clean => "Clean",
        GitStatus::Dirty => "Uncommitted",
        GitStatus::Unknown => "Unknown",
    }
}

/// The positions, in order, of the kilds that run (first) and of the
/// others (second): how the sidebar groups kilds.
pub open spec fn running_positions(ds: Seq<KildDisplay>, running: bool) -> Seq<int>
    decreases ds.len(),
{
    if ds.len() == 0 {
        Seq::empty()
    } else {
        let prev = running_positions(ds.drop_last(), running);
        if (ds.last().process_status == ProcessStatus::Running) == running {
            prev.push(ds.len() - 1)
        } else {
            prev
        }
    }
}

/// The content of a list of positions.
pub open spec fn positions_view(v: Seq<usize>) -> Seq<int> {
    v.map_values(|i: usize| i as int)
}

/// Splits the kilds into those that run and the others, keeping their
/// order; returns their positions.
pub fn group_by_status(displays: &Vec<KildDisplay>) -> (r: (Vec<usize>, Vec<usize>))
    ensures
        positions_view(r.0@) == running_positions(displays@, true),
        positions_view(r.1@) == running_positions(displays@, false),
{
    let mut active: Vec<usize> = Vec::new();
    let mut stopped: Vec<usize> = Vec::new();
    let mut i: usize = 0;
    while i < displays.len()
        invariant
            i <= displays@.len(),
            positions_view(active@) == running_positions(displays@.take(i as int), true),
            positions_view(stopped@) == running_positions(displays@.take(i as int), false),
        decreases displays@.len() - i,
    {
        proof {
            assert(displays@.take(i + 1).drop_last() == displays@.take(i as int));
        }
        if displays[i].process_status == ProcessStatus::Running {
            active.push(i);
        } else {
            stopped.push(i);
        }
        proof {
            assert(positions_view(active@) =~= running_positions(displays@.take(i + 1), true));
            assert(positions_view(stopped@) =~= running_positions(displays@.take(i + 1), false));
        }
        i = i + 1;
    }
    proof {
        assert(displays@.take(displays@.len() as int) == displays@);
    }
    (active, stopped)
}

/// The most alerts the status bar shows; the rest are counted.
pub const MAX_ALERTS: usize = 2;

/// An alert in the status bar.
#[derive(Clone, Debug)]
pub struct Alert {
    pub message: String,
    /// An error (drawn in red) rather than a warning.
    pub is_error: bool,
}

/// The content of an alert.
pub struct AlertView {
    pub message: Seq<char>,
    pub is_error: bool,
}

/// The content of a list of alerts.
pub open spec fn alert_views(v: Seq<Alert>) -> Seq<AlertView> {
    v.map_values(|a: Alert| AlertView { message: a.message@, is_error: a.is_error })
}

/// One error alert per kild whose branch has an operation error, in order:
/// `"<branch>: <message>"`.
pub open spec fn error_alerts(ds: Seq<KildDisplay>, errors: Map<Seq<char>, ErrorView>) -> Seq<AlertView>
    decreases ds.len(),
{
    if ds.len() == 0 {
        Seq::empty()
    } else {
        let prev = error_alerts(ds.drop_last(), errors);
        let b = ds.last().branch@;
        if errors.contains_key(b) {
            prev.push(AlertView { message: b + ": "@ + errors[b].message, is_error: true })
        } else {
            prev
        }
    }
}

/// One warning per stopped kild with uncommitted changes, in order:
/// `"<branch> has uncommitted changes"` (running kilds are expected to have
/// changes).
pub open spec fn dirty_alerts(ds: Seq<KildDisplay>) -> Seq<AlertView>
    decreases ds.len(),
{
    if ds.len() == 0 {
        Seq::empty()
    } else {
        let prev = dirty_alerts(ds.drop_last());
        let d = ds.last();
        if d.process_status == ProcessStatus::Stopped && d.git_status == GitStatus::Dirty {
            prev.push(AlertView { message: d.branch@ + " has uncommitted changes"@, is_error: false })
        } else {
            prev
        }
    }
}

/// The alerts for the displayed kilds: errors first, then uncommitted
/// changes of stopped kilds.
pub fn compute_alerts(displays: &Vec<KildDisplay>, errors: &OperationErrors) -> (r: Vec<Alert>)
    ensures
        alert_views(r@) == error_alerts(displays@, errors@) + dirty_alerts(displays@),
{
    let mut alerts: Vec<Alert> = Vec::new();
    let mut i: usize = 0;
    while i < displays.len()
        invariant
            i <= displays@.len(),
            alert_views(alerts@) == error_alerts(displays@.take(i as int), errors@),
        decreases displays@.len() - i,
    {
        proof {
            assert(displays@.take(i + 1).drop_last() == displays@.take(i as int));
        }
        let branch = displays[i].branch.as_str();
        if let Some(err) = errors.get(branch) {
            let mut message = owned(branch);
            push_str(&mut message, ": ");
            push_str(&mut message, err.message.as_str());
            let ghost before = alerts@;
            alerts.push(Alert { message, is_error: true });
            proof {
                assert(alert_views(alerts@) =~= alert_views(before).push(alert_views(alerts@).last()));
            }
        }
        proof {
            assert(alert_views(alerts@) =~= error_alerts(displays@.take(i + 1), errors@));
        }
        i = i + 1;
    }
    let ghost errs = alerts@;
    let mut j: usize = 0;
    while j < displays.len()
        invariant
            j <= displays@.len(),
            alert_views(errs) == error_alerts(displays@.take(displays@.len() as int), errors@),
            alert_views(alerts@) == alert_views(errs) + dirty_alerts(displays@.take(j as int)),
        decreases displays@.len() - j,
    {
        proof {
            assert(displays@.take(j + 1).drop_last() == displays@.take(j as int));
        }
        let d = &displays[j];
        if d.process_status == ProcessStatus::Stopped && d.git_status == GitStatus::Dirty {
            let mut message = owned(d.branch.as_str());
            push_str(&mut message, " has uncommitted changes");
            let ghost before = alerts@;
            alerts.push(Alert { message, is_error: false });
            proof {
                assert(alert_views(alerts@) =~= alert_views(before).push(alert_views(alerts@).last()));
            }
        }
        proof {
            assert(alert_views(alerts@) =~= alert_views(errs) + dirty_alerts(displays@.take(j + 1)));
        }
        j = j + 1;
    }
    proof {
        assert(displays@.take(displays@.len() as int) == displays@);
    }
    alerts
}

/// How many alerts are not shown: those beyond `MAX_ALERTS`.
pub fn hidden_alert_count(total: usize) -> (r: usize)
    ensures
        r == (if total > MAX_ALERTS { total - MAX_ALERTS } else { 0 }),
{
    total.saturating_sub(MAX_ALERTS)
}

/// The note for alerts that are not shown, `"+N more"`, when there are any.
pub fn hidden_alerts_note(total: usize) -> (r: Option<String>)
    ensures
        total <= MAX_ALERTS ==> r is None,
        total > MAX_ALERTS ==> (r matches Some(s) && s@ == "+"@ + decimal_digits((total - MAX_ALERTS) as nat)
            + " more"@),
{
    let hidden = hidden_alert_count(total);
    if hidden == 0 {
        return None;
    }
    let mut s = owned("+");
    push_decimal(&mut s, hidden as u64);
    push_str(&mut s, " more");
    Some(s)
}

/// The keyboard hints (shortcut, what it does) shown for a view.
pub open spec fn hints_for(view: ActiveView) -> Seq<(Seq<char>, Seq<char>)> {
    match view {
        ActiveView::Control => seq![
            ("cmd-j"@, "next"@),
            ("cmd-k"@, "prev"@),
            ("cmd-d"@, "dashboard"@),
            ("ctrl-tab"@, "tabs"@),
        ],
        ActiveView::Dashboard => seq![("cmd-j"@, "next"@), ("cmd-k"@, "prev"@), ("cmd-d"@, "control"@)],
        ActiveView::Detail => seq![("escape"@, "back"@), ("cmd-d"@, "control"@)],
    }
}

/// The content of a list of hints.
pub open spec fn hint_views(v: Seq<(&'static str, &'static str)>) -> Seq<(Seq<char>, Seq<char>)> {
    v.map_values(|h: (&'static str, &'static str)| (h.0@, h.1@))
}

/// The keyboard hints (shortcut, what it does) shown for a view.
pub fn keyboard_hints_for_view(view: ActiveView) -> (r: Vec<(&'static str, &'static str)>)
    ensures
        hint_views(r@) == hints_for(view),
{
    let mut v: Vec<(&'static str, &'static str)> = Vec::new();
    match view {
        ActiveView::Control => {
            v.push(("cmd-j", "next"));
            v.push(("cmd-k", "prev"));
            v.push(("cmd-d", "dashboard"));
            v.push(("ctrl-tab", "tabs"));
        },
        ActiveView::Dashboard => {
            v.push(("cmd-j", "next"));
            v.push(("cmd-k", "prev"));
            v.push(("cmd-d", "control"));
        },
        ActiveView::Detail => {
            v.push(("escape", "back"));
            v.push(("cmd-d", "control"));
        },
    }
    assert(hint_views(v@) =~= hints_for(view));
    v
}

/// The non-empty components of a `/`-separated path.
pub open spec fn path_parts(path: Seq<char>) -> Seq<Seq<char>> {
    split_on(path, '/').filter(|p: Seq<char>| p.len() > 0)
}

/// A path shortened to its last two components: `.../a/b`; a path with
/// at most two components is kept as it is.
pub open spec fn short_path(path: Seq<char>) -> Seq<char> {
    let parts = path_parts(path);
    if parts.len() <= 2 {
        path
    } else {
        ".../"@ + parts[parts.len() - 2] + "/"@ + parts[parts.len() - 1]
    }
}

/// Shortens a path for a pane header to its last two components.
pub fn truncate_path(path: &str) -> (r: String)
    ensures
        r@ == short_path(path@),
{
    let pieces = split_char(path, '/');
    let ghost all = split_on(path@, '/');
    let mut parts: Vec<String> = Vec::new();
    let mut i: usize = 0;
    while i < pieces.len()
        invariant
            views(pieces@) == all,
            i <= pieces@.len(),
            views(parts@) == all.take(i as int).filter(|p: Seq<char>| p.len() > 0),
        decreases pieces@.len() - i,
    {
        proof {
            assert(all.take(i + 1).drop_last() == all.take(i as int));
            assert(all.take(i + 1).last() == pieces@[i as int]@);
            all.take(i as int).lemma_filter_push(pieces@[i as int]@, |p: Seq<char>| p.len() > 0);
            assert(all.take(i + 1) == all.take(i as int).push(pieces@[i as int]@));
        }
        if pieces[i].unicode_len() > 0 {
            let ghost before = parts@;
            parts.push(pieces[i].clone());
            proof {
                assert(views(parts@) =~= views(before).push(pieces@[i as int]@));
            }
        }
        i = i + 1;
    }
    proof {
        assert(all.take(pieces@.len() as int) == all);
    }
    let n = parts.len();
    if n <= 2 {
        return owned(path);
    }
    let mut out = owned(".../");
    push_str(&mut out, parts[n - 2].as_str());
    push_str(&mut out, "/");
    push_str(&mut out, parts[n - 1].as_str());
    out
}

/// The letter on a project's rail icon: the first character of its name,
/// uppercased, or `?` for an empty name.
pub open spec fn initial_of(name: Seq<char>) -> Seq<char> {
    if name.len() == 0 {
        "?"@
    } else {
        uppercase_text(seq![name[0]])
    }
}

/// The letter on a project's rail icon.
pub fn project_initial(name: &str) -> (r: String)
    ensures
        r@ == initial_of(name@),
{
    if name.unicode_len() == 0 {
        return owned("?");
    }
    let first = name.substring_char(0, 1);
    proof {
        assert(first@ =~= seq![name@[0]]);
    }
    to_uppercase(first)
}

/// A sidebar section header: `<label> (<count>)`.
pub fn section_header(label: &str, count: usize) -> (r: String)
    ensures
        r@ == label@ + " ("@ + decimal_digits(count as nat) + ")"@,
{
    let mut s = owned(label);
    push_str(&mut s, " (");
    push_decimal(&mut s, count as u64);
    push_str(&mut s, ")");
    s
}

/// Which agent is selected in the create dialog, counting from one:
/// `(<n>/<count>)`.
pub fn agent_position(selected: usize, count: usize) -> (r: String)
    requires
        selected < usize::MAX,
    ensures
        r@ == "("@ + decimal_digits((selected + 1) as nat) + "/"@ + decimal_digits(count as nat) + ")"@,
{
    let mut s = owned("(");
    push_decimal(&mut s, (selected + 1) as u64);
    push_str(&mut s, "/");
    push_decimal(&mut s, count as u64);
    push_str(&mut s, ")");
    s
}

/// The title of the dialog confirming a kild's destruction.
pub fn destroy_title(branch: &str) -> (r: String)
    ensures
        r@ == "Destroy '"@ + branch@ + "'?"@,
{
    let mut s = owned("Destroy '");
    push_str(&mut s, branch);
    push_str(&mut s, "'?");
    s
}

/// A safety warning line in that dialog.
pub fn warning_line(warning: &str) -> (r: String)
    ensures
        r@ == "⚠ "@ + warning@,
{
    let mut s = owned("⚠ ");
    push_str(&mut s, warning);
    s
}

/// The name on a teammate's tab: its pane title, or `lead` for the leader
/// and its pane id for others when it has no title.
pub fn teammate_tab_name<'a>(title: &'a str, is_leader: bool, pane_id: &'a str) -> (r: &'a str)
    ensures
        r@ == (if title@.len() == 0 {
            if is_leader { "lead"@ } else { pane_id@ }
        } else {
            title@
        }),
{
    if title.unicode_len() == 0 {
        if is_leader { "lead" } else { pane_id }
    } else {
        title
    }
}

/// The kilds shown as minimised bars: the running ones, in order.
pub fn running_kilds(displays: &Vec<KildDisplay>) -> (r: Vec<usize>)
    ensures
        positions_view(r@) == running_positions(displays@, true),
{
    group_by_status(displays).0
}

/// Whether a kild's branch has an operation error.
pub open spec fn has_error(d: KildDisplay, errors: Map<Seq<char>, ErrorView>) -> bool {
    errors.contains_key(d.branch@)
}

/// Every kild whose branch has an operation error gets its own error alert
/// `"<branch>: <message>"`: there are exactly as many error alerts as such
/// kilds, each is an error, and each such kild's alert is among them.
pub proof fn lemma_error_alert_per_failed_kild(ds: Seq<KildDisplay>, errors: Map<Seq<char>, ErrorView>)
    ensures
        error_alerts(ds, errors).len() == ds.filter(|d: KildDisplay| has_error(d, errors)).len(),
        forall|k: int| 0 <= k < error_alerts(ds, errors).len() ==> (#[trigger] error_alerts(ds, errors)[k]).is_error,
        forall|i: int| 0 <= i < ds.len() && #[trigger] has_error(ds[i], errors) ==> error_alerts(ds, errors).contains(
            AlertView { message: ds[i].branch@ + ": "@ + errors[ds[i].branch@].message, is_error: true },
        ),
    decreases ds.len(),
{
    if ds.len() > 0 {
        let p = ds.drop_last();
        lemma_error_alert_per_failed_kild(p, errors);
        assert(ds =~= p.push(ds.last()));
        p.lemma_filter_push(ds.last(), |d: KildDisplay| has_error(d, errors));
        let prev = error_alerts(p, errors);
        let cur = error_alerts(ds, errors);
        assert forall|i: int| 0 <= i < ds.len() && #[trigger] has_error(ds[i], errors) implies cur.contains(
            AlertView { message: ds[i].branch@ + ": "@ + errors[ds[i].branch@].message, is_error: true },
        ) by {
            let a = AlertView { message: ds[i].branch@ + ": "@ + errors[ds[i].branch@].message, is_error: true };
            if i < ds.len() - 1 {
                assert(ds[i] == p[i]);
                assert(has_error(p[i], errors));
                assert(prev.contains(a));
                let k = choose|k: int| 0 <= k < prev.len() && prev[k] == a;
                assert(cur[k] == a);
            } else {
                assert(ds[i] == ds.last());
                assert(cur[cur.len() - 1] == a);
            }
        }
    }
}

} // verus!
