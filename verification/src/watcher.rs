//! Which file-system events concern the dashboard: changed session files,
//! and changed teammate pane registries.
use vstd::prelude::*;
use crate::projects::{file_name, spec_file_name};
use crate::text::{str_eq};

verus! {

/// What `Path::extension` gives for a path, as text: the part of the final
/// component after its last `.`, if there is one (not for names such as
/// `.DS_Store` that only start with a dot).
pub uninterp spec fn spec_extension(path: Seq<char>) -> Option<Seq<char>>;

/// What `Path::parent` gives for a path, as text: the path without its
/// final component, or `None` for a root or an empty path.
pub uninterp spec fn spec_parent(path: Seq<char>) -> Option<Seq<char>>;

/// The extension of a path (`Path::extension`).
///
/// Trusted: the result is `spec_extension` of the path.
#[verifier::external_body]
fn extension(path: &str) -> (r: Option<String>)
    ensures
        match r {
            Some(e) => spec_extension(path@) == Some(e@),
            None => spec_extension(path@) is None,
        },
{
    match std::path::Path::new(path).extension() {
        Some(e) => Some(e.to_string_lossy().into_owned()),
        None => None,
    }
}

/// The parent of a path (`Path::parent`).
///
/// Trusted: the result is `spec_parent` of the path.
#[verifier::external_body]
fn parent(path: &str) -> (r: Option<String>)
    ensures
        match r {
            Some(p) => spec_parent(path@) == Some(p@),
            None => spec_parent(path@) is None,
        },
{
    match std::path::Path::new(path).parent() {
        Some(p) => Some(p.to_string_lossy().into_owned()),
        None => None,
    }
}

/// The kind of a file-system event.
#[derive(Clone, Copy, Debug, PartialEq, Eq, Structural)]
pub enum FsEventKind {
    Any,
    Access,
    Create,
    Modify,
    Remove,
    Other,
}

/// A file-system event: its kind and the paths it concerns.
#[derive(Clone, Debug)]
pub struct FsEvent {
    pub kind: FsEventKind,
    pub paths: Vec<String>,
}

/// Whether an event kind changes files: creation, modification, removal.
pub open spec fn changes_files(k: FsEventKind) -> bool {
    k == FsEventKind::Create || k == FsEventKind::Modify || k == FsEventKind::Remove
}

/// Whether a path is a session file (`.json`) or a status sidecar (`.status`).
pub open spec fn is_session_file(path: Seq<char>) -> bool {
    spec_extension(path) == Some("json"@) || spec_extension(path) == Some("status"@)
}

/// Whether an event concerns session files: it changes files, and one of
/// its paths is a session file or status sidecar.
pub open spec fn relevant(e: FsEvent) -> bool {
    changes_files(e.kind) && exists|i: int| 0 <= i < e.paths@.len() && is_session_file(#[trigger] e.paths@[i]@)
}

/// Whether `path` names a session file or status sidecar.
fn session_file(path: &str) -> (r: bool)
    ensures
        r == is_session_file(path@),
{
    match extension(path) {
        Some(e) => str_eq(e.as_str(), "json") || str_eq(e.as_str(), "status"),
        None => false,
    }
}

/// Whether an event concerns session files (see [`relevant`]).
pub fn is_relevant_event(event: &FsEvent) -> (r: bool)
    ensures
        r == relevant(*event),
{
    let kind_changes = match event.kind {
        FsEventKind::Create | FsEventKind::Modify | FsEventKind::Remove => true,
        _ => false,
    };
    if !kind_changes {
        return false;
    }
    let mut i: usize = 0;
    while i < event.paths.len()
        invariant
            changes_files(event.kind),
            i <= event.paths@.len(),
            forall|j: int| 0 <= j < i ==> !is_session_file(#[trigger] event.paths@[j]@),
        decreases event.paths@.len() - i,
    {
        if session_file(event.paths[i].as_str()) {
            return true;
        }
        i = i + 1;
    }
    false
}

/// Whether any of the events concerns session files.
pub fn any_relevant(events: &Vec<FsEvent>) -> (r: bool)
    ensures
        r == exists|i: int| 0 <= i < events@.len() && relevant(#[trigger] events@[i]),
{
    let mut i: usize = 0;
    while i < events.len()
        invariant
            i <= events@.len(),
            forall|j: int| 0 <= j < i ==> !relevant(#[trigger] events@[j]),
        decreases events@.len() - i,
    {
        if is_relevant_event(&events[i]) {
            return true;
        }
        i = i + 1;
    }
    false
}

/// The session whose teammate registry `path` is, when it is one:
/// `<dir>/<session>/panes.json` gives `<session>`.
pub open spec fn registry_session(path: Seq<char>) -> Option<Seq<char>> {
    if spec_file_name(path) == Some("panes.json"@) {
        match spec_parent(path) {
            Some(p) => spec_file_name(p),
            None => None,
        }
    } else {
        None
    }
}

/// The sessions of the teammate registries that the events change, each
/// once, in the order first seen.
pub open spec fn changed_sessions(events: Seq<FsEvent>) -> Seq<Seq<char>>
    decreases events.len(),
{
    if events.len() == 0 {
        Seq::empty()
    } else {
        let prev = changed_sessions(events.drop_last());
        let e = events.last();
        if changes_files(e.kind) {
            add_sessions(prev, e.paths@.map_values(|p: String| p@))
        } else {
            prev
        }
    }
}

/// `seen` followed by the sessions of the registries among `paths` that are
/// not already listed, in order.
pub open spec fn add_sessions(seen: Seq<Seq<char>>, paths: Seq<Seq<char>>) -> Seq<Seq<char>>
    decreases paths.len(),
{
    if paths.len() == 0 {
        seen
    } else {
        let prev = add_sessions(seen, paths.drop_last());
        match registry_session(paths.last()) {
            Some(s) => if prev.contains(s) { prev } else { prev.push(s) },
            None => prev,
        }
    }
}

/// The session whose teammate registry `path` is, when it is one.
fn registry_session_of(path: &str) -> (r: Option<String>)
    ensures
        match r {
            Some(s) => registry_session(path@) == Some(s@),
            None => registry_session(path@) is None,
        },
{
    match file_name(path) {
        Some(f) => {
            if !str_eq(f.as_str(), "panes.json") {
                return None;
            }
        },
        None => {
            return None;
        },
    }
    match parent(path) {
        Some(p) => file_name(p.as_str()),
        None => None,
    }
}

/// The content of a list of strings.
pub open spec fn texts(v: Seq<String>) -> Seq<Seq<char>> {
    v.map_values(|s: String| s@)
}

/// Whether `list` holds `s`.
fn listed(list: &Vec<String>, s: &str) -> (r: bool)
    ensures
        r == texts(list@).contains(s@),
{
    let mut i: usize = 0;
    while i < list.len()
        invariant
            i <= list@.len(),
            forall|j: int| 0 <= j < i ==> list@[j]@ != s@,
        decreases list@.len() - i,
    {
        if str_eq(list[i].as_str(), s) {
            assert(texts(list@)[i as int] == s@);
            return true;
        }
        i = i + 1;
    }
    assert(!texts(list@).contains(s@)) by {
        if texts(list@).contains(s@) {
            let k = choose|k: int| 0 <= k < texts(list@).len() && texts(list@)[k] == s@;
            assert(list@[k]@ == s@);
        }
    }
    false
}

/// The sessions of the teammate registries that the events change, each
/// once, in the order first seen (see [`changed_sessions`]).
pub fn drain_changed_sessions(events: &Vec<FsEvent>) -> (r: Vec<String>)
    ensures
        texts(r@) == changed_sessions(events@),
{
    let mut changed: Vec<String> = Vec::new();
    let mut i: usize = 0;
    while i < events.len()
        invariant
            i <= events@.len(),
            texts(changed@) == changed_sessions(events@.take(i as int)),
        decreases events@.len() - i,
    {
        proof {
            assert(events@.take(i + 1).drop_last() == events@.take(i as int));
        }
        let e = &events[i];
        let kind_changes = match e.kind {
            FsEventKind::Create | FsEventKind::Modify | FsEventKind::Remove => true,
            _ => false,
        };
        if kind_changes {
            let ghost seen = texts(changed@);
            let ghost ps = e.paths@.map_values(|p: String| p@);
            let mut k: usize = 0;
            while k < e.paths.len()
                invariant
                    k <= e.paths@.len(),
                    ps == e.paths@.map_values(|p: String| p@),
                    texts(changed@) == add_sessions(seen, ps.take(k as int)),
                decreases e.paths@.len() - k,
            {
                proof {
                    assert(ps.take(k + 1).drop_last() == ps.take(k as int));
                    assert(ps.take(k + 1).last() == e.paths@[k as int]@);
                }
                match registry_session_of(e.paths[k].as_str()) {
                    Some(s) => {
                        if !listed(&changed, s.as_str()) {
                            let ghost before = changed@;
                            changed.push(s);
                            proof {
                                assert(texts(changed@) =~= texts(before).push(texts(changed@).last()));
                            }
                        }
                    },
                    None => {},
                }
                k = k + 1;
            }
            proof {
                assert(ps.take(ps.len() as int) == ps);
            }
        }
        i = i + 1;
    }
    proof {
        assert(events@.take(events@.len() as int) == events@);
    }
    changed
}

/// A teammate session is reported at most once however many events touch
/// its registry.
pub proof fn lemma_changed_sessions_distinct(events: Seq<FsEvent>)
    ensures
        forall|i: int, j: int|
            0 <= i < j < changed_sessions(events).len() ==> changed_sessions(events)[i]
                != changed_sessions(events)[j],
    decreases events.len(),
{
    if events.len() > 0 {
        lemma_changed_sessions_distinct(events.drop_last());
        let e = events.last();
        if changes_files(e.kind) {
            lemma_add_sessions_distinct(changed_sessions(events.drop_last()), e.paths@.map_values(|p: String| p@));
        }
    }
}

/// Adding sessions keeps a list free of repeats.
pub proof fn lemma_add_sessions_distinct(seen: Seq<Seq<char>>, paths: Seq<Seq<char>>)
    requires
        forall|i: int, j: int| 0 <= i < j < seen.len() ==> seen[i] != seen[j],
    ensures
        forall|i: int, j: int|
            0 <= i < j < add_sessions(seen, paths).len() ==> add_sessions(seen, paths)[i]
                != add_sessions(seen, paths)[j],
    decreases paths.len(),
{
    if paths.len() > 0 {
        lemma_add_sessions_distinct(seen, paths.drop_last());
        let prev = add_sessions(seen, paths.drop_last());
        if let Some(s) = registry_session(paths.last()) {
            if !prev.contains(s) {
                assert forall|i: int, j: int| 0 <= i < j < prev.push(s).len() implies prev.push(s)[i]
                    != prev.push(s)[j] by {
                    if j == prev.len() {
                        assert(prev[i] != s);
                    }
                }
            }
        }
    }
}

} // verus!
