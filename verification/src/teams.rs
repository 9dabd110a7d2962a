//! Agent teams: which kild session each team works in, and the teammates
//! shown for a session.
use vstd::prelude::*;
use crate::strmap::StrMap;
use crate::text::{owned, push_str};

verus! {

/// The color a team member is shown in.
#[derive(Clone, Copy, Debug, PartialEq, Eq, Structural)]
pub enum TeamColor {
    Red,
    Blue,
    Green,
    Yellow,
    Purple,
    Orange,
    Pink,
    Cyan,
    Unknown,
}

/// The RGB code a team color is drawn with (the dashboard's palette:
/// ember, ice, aurora and copper for red, blue, green and orange; the
/// muted text color for an unknown color).
pub open spec fn team_color_code(c: TeamColor) -> u32 {
    match c {
        TeamColor::Red => 0xF87171,
        TeamColor::Blue => 0x38BDF8,
        TeamColor::Green => 0x34D399,
        TeamColor::Yellow => 0xE5C07B,
        TeamColor::Purple => 0xC678DD,
        TeamColor::Orange => 0xFBBF24,
        TeamColor::Pink => 0xFF7EB6,
        TeamColor::Cyan => 0x56B6C2,
        TeamColor::Unknown => 0x5C6370,
    }
}

/// The RGB code a team color is drawn with (see [`team_color_code`]).
pub fn team_color_rgb(c: TeamColor) -> (r: u32)
    ensures
        r == team_color_code(c),
{
    match c {
        TeamColor::Red => 0xF87171,
        TeamColor::Blue => 0x38BDF8,
        TeamColor::Green => 0x34D399,
        TeamColor::Yellow => 0xE5C07B,
        TeamColor::Purple => 0xC678DD,
        TeamColor::Orange => 0xFBBF24,
        TeamColor::Pink => 0xFF7EB6,
        TeamColor::Cyan => 0x56B6C2,
        TeamColor::Unknown => 0x5C6370,
    }
}

/// A member of an agent team.
#[derive(Clone, Debug)]
pub struct TeamMember {
    pub name: String,
    /// The daemon session running this member's agent, when known.
    pub daemon_session_id: Option<String>,
    /// Whether this member leads the team.
    pub is_leader: bool,
    pub color: TeamColor,
}

/// An agent team as resolved against kild sessions.
#[derive(Clone, Debug)]
pub struct TeamState {
    pub team_name: String,
    /// The kild session the team works in, when known.
    pub kild_session_id: Option<String>,
    pub members: Vec<TeamMember>,
}

/// Whether a resolved team can be shown in a session: it names the session
/// and some member runs in a known daemon session.
pub open spec fn usable(t: TeamState) -> bool {
    t.kild_session_id is Some && exists|i: int| 0 <= i < t.members@.len() && (#[trigger] t.members@[i]).daemon_session_id is Some
}

/// Whether a resolved team can be shown in a session (see [`usable`]).
pub fn is_usable(t: &TeamState) -> (r: bool)
    ensures
        r == usable(*t),
{
    if t.kild_session_id.is_none() {
        return false;
    }
    let mut i: usize = 0;
    while i < t.members.len()
        invariant
            t.kild_session_id is Some,
            i <= t.members@.len(),
            forall|j: int| 0 <= j < i ==> (#[trigger] t.members@[j]).daemon_session_id is None,
        decreases t.members@.len() - i,
    {
        if t.members[i].daemon_session_id.is_some() {
            return true;
        }
        i = i + 1;
    }
    false
}

/// Whether the resolution at `j` succeeded with a usable team.
pub open spec fn usable_at(res: Seq<Option<TeamState>>, j: int) -> bool {
    match res[j] {
        Some(t) => usable(t),
        None => false,
    }
}

/// The first session whose resolution of a team is usable.
pub open spec fn first_usable(res: Seq<Option<TeamState>>) -> Option<int> {
    if exists|j: int| 0 <= j < res.len() && #[trigger] usable_at(res, j) {
        Some(choose|j: int| 0 <= j < res.len() && usable_at(res, j) && forall|k: int|
            0 <= k < j ==> !#[trigger] usable_at(res, k))
    } else {
        None
    }
}

/// Finds the first session whose resolution of a team is usable.
fn find_usable(res: &Vec<Option<TeamState>>) -> (r: Option<usize>)
    ensures
        match r {
            Some(j) => j < res@.len() && first_usable(res@) == Some(j as int) && usable_at(res@, j as int),
            None => first_usable(res@) is None,
        },
{
    let mut j: usize = 0;
    while j < res.len()
        invariant
            j <= res@.len(),
            forall|k: int| 0 <= k < j ==> !#[trigger] usable_at(res@, k),
        decreases res@.len() - j,
    {
        let ok = match &res[j] {
            Some(t) => is_usable(t),
            None => false,
        };
        if ok {
            proof {
                assert(usable_at(res@, j as int));
                let c = choose|c: int| 0 <= c < res@.len() && usable_at(res@, c) && forall|k: int|
                    0 <= k < c ==> !#[trigger] usable_at(res@, k);
                assert(0 <= c < res@.len() && usable_at(res@, c) && forall|k: int|
                    0 <= k < c ==> !#[trigger] usable_at(res@, k));
                if c < j {
                    assert(!usable_at(res@, c));
                } else if c > j {
                    assert(!usable_at(res@, j as int));
                }
            }
            return Some(j);
        }
        j = j + 1;
    }
    None
}

/// Teams by the kild session they work in, and sessions by team name.
pub struct TeamManager {
    team_states: StrMap<TeamState>,
    team_to_session: StrMap<String>,
}

/// The content of the team manager.
pub struct TeamsView {
    pub by_session: Map<Seq<char>, TeamState>,
    pub session_of_team: Map<Seq<char>, Seq<char>>,
}

impl View for TeamManager {
    type V = TeamsView;

    closed spec fn view(&self) -> TeamsView {
        TeamsView {
            by_session: self.team_states@,
            session_of_team: self.team_to_session@.map_values(|s: String| s@),
        }
    }
}

/// No teams.
pub open spec fn no_teams() -> TeamsView {
    TeamsView { by_session: Map::empty(), session_of_team: Map::empty() }
}

/// The teams after matching each scanned team (its name, and its
/// resolution against each session in session order, `None` where that
/// failed) with the first session where it is usable; a later team matched
/// to the same session replaces an earlier one.
pub open spec fn matched_teams(
    session_ids: Seq<Seq<char>>,
    teams: Seq<(Seq<char>, Seq<Option<TeamState>>)>,
) -> TeamsView
    decreases teams.len(),
{
    if teams.len() == 0 {
        no_teams()
    } else {
        let prev = matched_teams(session_ids, teams.drop_last());
        let t = teams.last();
        match first_usable(t.1) {
            Some(j) => TeamsView {
                by_session: prev.by_session.insert(session_ids[j], t.1[j]->0),
                session_of_team: prev.session_of_team.insert(t.0, session_ids[j]),
            },
            None => prev,
        }
    }
}

/// The content of a list of strings.
pub open spec fn id_texts(v: Seq<String>) -> Seq<Seq<char>> {
    v.map_values(|s: String| s@)
}

/// The content of scanned teams.
pub open spec fn scanned_view(v: Seq<(String, Vec<Option<TeamState>>)>) -> Seq<(Seq<char>, Seq<Option<TeamState>>)> {
    v.map_values(|t: (String, Vec<Option<TeamState>>)| (t.0@, t.1@))
}

/// The name a team found only through a session's shim registry gets.
pub open spec fn shim_team_name(session_id: Seq<char>) -> Seq<char> {
    "shim-"@ + session_id
}

/// Whether `next` is `prev` with the teams found in the shim registries of
/// the sessions `ids` (`found[i]` for `ids[i]`) added: a session that has a
/// team keeps it; every other session with something found gets the team
/// `shim-<session>` of the first members found for it; nothing else changes.
pub open spec fn discovered_teams(
    prev: TeamsView,
    next: TeamsView,
    ids: Seq<Seq<char>>,
    found: Seq<Option<Vec<TeamMember>>>,
) -> bool {
    &&& next.session_of_team == prev.session_of_team
    &&& forall|s: Seq<char>| #[trigger] next.by_session.contains_key(s) <==> (prev.by_session.contains_key(s)
        || exists|i: int| 0 <= i < ids.len() && ids[i] == s && found[i] is Some)
    &&& forall|s: Seq<char>| prev.by_session.contains_key(s) ==> #[trigger] next.by_session[s] == prev.by_session[s]
    &&& forall|i: int| 0 <= i < ids.len() && (#[trigger] found[i]) is Some && !prev.by_session.contains_key(ids[i])
        && (forall|k: int| 0 <= k < i ==> !(ids[k] == ids[i] && found[k] is Some)) ==> {
        let t = next.by_session[ids[i]];
        &&& t.team_name@ == shim_team_name(ids[i])
        &&& t.kild_session_id matches Some(x) && x@ == ids[i]
        &&& t.members == found[i]->0
    }
}

impl TeamManager {
    /// No teams known.
    pub fn new() -> (r: TeamManager)
        ensures
            r@ == no_teams(),
    {
        let r = TeamManager { team_states: StrMap::new(), team_to_session: StrMap::new() };
        assert(r@.session_of_team =~= Map::<Seq<char>, Seq<char>>::empty());
        r
    }

    /// Replaces the known teams by the scanned `teams` matched with the
    /// sessions `session_ids` (see [`matched_teams`]). Each team comes with
    /// its resolution against every session, in order.
    pub fn refresh(&mut self, session_ids: &Vec<String>, teams: Vec<(String, Vec<Option<TeamState>>)>)
        requires
            forall|i: int| 0 <= i < teams@.len() ==> (#[trigger] teams@[i]).1@.len() == session_ids@.len(),
        ensures
            final(self)@ == matched_teams(id_texts(session_ids@), scanned_view(teams@)),
    {
        let ghost sids = id_texts(session_ids@);
        let ghost all = scanned_view(teams@);
        let mut states: StrMap<TeamState> = StrMap::new();
        let mut names: StrMap<String> = StrMap::new();
        let mut rest = teams;
        let n = rest.len();
        let mut i: usize = 0;
        proof {
            assert(all.take(0) =~= Seq::<(Seq<char>, Seq<Option<TeamState>>)>::empty());
            assert(names@.map_values(|s: String| s@) =~= Map::<Seq<char>, Seq<char>>::empty());
        }
        while i < n
            invariant
                n == all.len(),
                i <= n,
                sids == id_texts(session_ids@),
                rest@.len() == n - i,
                scanned_view(rest@) == all.subrange(i as int, n as int),
                forall|k: int| 0 <= k < rest@.len() ==> (#[trigger] rest@[k]).1@.len() == session_ids@.len(),
                states@ == matched_teams(sids, all.take(i as int)).by_session,
                names@.map_values(|s: String| s@) == matched_teams(sids, all.take(i as int)).session_of_team,
            decreases n - i,
        {
            proof {
                assert(all.take(i + 1).drop_last() == all.take(i as int));
                assert(all.take(i + 1).last() == all[i as int]);
                assert(all[i as int] == scanned_view(rest@)[0]);
            }
            let ghost rest_before = rest@;
            let (name, mut res) = rest.remove(0);
            proof {
                assert(scanned_view(rest@) =~= all.subrange(i + 1, n as int)) by {
                    assert forall|k: int| 0 <= k < rest@.len() implies #[trigger] scanned_view(rest@)[k]
                        == all.subrange(i + 1, n as int)[k] by {
                        assert(rest@ == rest_before.remove(0));
                        assert(rest@[k] == rest_before[k + 1]);
                        assert(scanned_view(rest_before)[k + 1] == all.subrange(i as int, n as int)[k + 1]);
                    }
                }
            }
            proof {
                assert(scanned_view(rest_before)[0] == all.subrange(i as int, n as int)[0]);
                assert(all[i as int] == (name@, res@));
            }
            match find_usable(&res) {
                Some(j) => {
                    let ghost before_names = names@;
                    let ghost res_before = res@;
                    let sid = session_ids[j].as_str();
                    assert(sids[j as int] == sid@);
                    let resolved = res.remove(j);
                    assert(resolved == res_before[j as int]);
                    assert(usable_at(res_before, j as int));
                    match resolved {
                        Some(t) => {
                            states.insert(sid, t);
                            names.insert(name.as_str(), owned(sid));
                            proof {
                                assert(names@.map_values(|s: String| s@) =~= before_names.map_values(|s: String| s@).insert(
                                    name@,
                                    sid@,
                                ));
                            }
                        },
                        None => {},
                    }
                },
                None => {},
            }
            i = i + 1;
        }
        proof {
            assert(all.take(n as int) == all);
        }
        self.team_states = states;
        self.team_to_session = names;
    }

    /// Whether session `session_id` has no team yet, so that its shim
    /// registry should be searched for teammates.
    pub fn needs_discovery(&self, session_id: &str) -> (r: bool)
        ensures
            r == !self@.by_session.contains_key(session_id@),
    {
        !self.team_states.contains_key(session_id)
    }

    /// Records the teammates found in the shim registry of session
    /// `session_id`, as a team named `shim-<session_id>` working there.
    pub fn add_discovered(&mut self, session_id: &str, members: Vec<TeamMember>)
        ensures
            final(self)@.session_of_team == old(self)@.session_of_team,
            final(self)@.by_session.dom() == old(self)@.by_session.dom().insert(session_id@),
            forall|s: Seq<char>| s != session_id@ && old(self)@.by_session.contains_key(s)
                ==> #[trigger] final(self)@.by_session[s] == old(self)@.by_session[s],
            final(self)@.by_session[session_id@].team_name@ == shim_team_name(session_id@),
            final(self)@.by_session[session_id@].kild_session_id matches Some(k) && k@ == session_id@,
            final(self)@.by_session[session_id@].members == members,
    {
        let mut team_name = owned("shim-");
        push_str(&mut team_name, session_id);
        let state = TeamState { team_name, kild_session_id: Some(owned(session_id)), members };
        self.team_states.insert(session_id, state);
    }

    /// After the teams are matched ([`TeamManager::refresh`]): records, for
    /// each session in order that still has no team, the teammates found in
    /// its shim registry as a team named `shim-<session>` (see
    /// [`discovered_teams`]). `found[i]` is what searching the registry of
    /// `session_ids[i]` found (`None` when nothing was found, the search
    /// failed, or the session was not searched because it has a team).
    pub fn add_discovered_teams(&mut self, session_ids: &Vec<String>, found: Vec<Option<Vec<TeamMember>>>)
        requires
            found@.len() == session_ids@.len(),
        ensures
            discovered_teams(old(self)@, final(self)@, id_texts(session_ids@), found@),
    {
        let ghost orig = self@;
        let ghost ids = id_texts(session_ids@);
        let ghost f0 = found@;
        let mut rest = found;
        let n = session_ids.len();
        let mut i: usize = 0;
        while i < n
            invariant
                n == session_ids@.len(),
                n == f0.len(),
                ids == id_texts(session_ids@),
                i <= n,
                rest@ == f0.subrange(i as int, n as int),
                discovered_teams(orig, self@, ids.take(i as int), f0.take(i as int)),
            decreases n - i,
        {
            let ghost before = self@;
            let f = rest.remove(0);
            assert(f == f0[i as int]);
            assert(rest@ =~= f0.subrange(i + 1, n as int));
            let sid = session_ids[i].as_str();
            assert(sid@ == ids[i as int]);
            match f {
                Some(ms) => {
                    if self.needs_discovery(sid) {
                        self.add_discovered(sid, ms);
                    }
                },
                None => {},
            }
            proof {
                let it = ids.take(i + 1);
                let ft = f0.take(i + 1);
                assert(it.len() == i + 1 && ft.len() == i + 1);
                assert forall|k: int| 0 <= k < i implies it[k] == ids.take(i as int)[k] && ft[k] == f0.take(i as int)[k] by {}
                assert(it[i as int] == ids[i as int] && ft[i as int] == f0[i as int]);
                assert forall|s: Seq<char>| #[trigger] self@.by_session.contains_key(s) <==> (orig.by_session.contains_key(s)
                    || exists|k: int| 0 <= k < it.len() && it[k] == s && ft[k] is Some) by {
                    if exists|k: int| 0 <= k < i && ids.take(i as int)[k] == s && f0.take(i as int)[k] is Some {
                        let k = choose|k: int| 0 <= k < i && ids.take(i as int)[k] == s && f0.take(i as int)[k] is Some;
                        assert(it[k] == s && ft[k] is Some);
                    }
                    if exists|k: int| 0 <= k < it.len() && it[k] == s && ft[k] is Some {
                        let k = choose|k: int| 0 <= k < it.len() && it[k] == s && ft[k] is Some;
                        if k < i {
                            assert(ids.take(i as int)[k] == s && f0.take(i as int)[k] is Some);
                        }
                    }
                }
                assert forall|k: int| 0 <= k < it.len() && (#[trigger] ft[k]) is Some && !orig.by_session.contains_key(it[k])
                    && (forall|m: int| 0 <= m < k ==> !(it[m] == it[k] && ft[m] is Some)) implies {
                    let t = self@.by_session[it[k]];
                    &&& t.team_name@ == shim_team_name(it[k])
                    &&& t.kild_session_id matches Some(x) && x@ == it[k]
                    &&& t.members == ft[k]->0
                } by {
                    if k < i {
                        assert(ids.take(i as int)[k] == it[k] && f0.take(i as int)[k] == ft[k]);
                        assert forall|m: int| 0 <= m < k implies !(ids.take(i as int)[m] == ids.take(i as int)[k]
                            && f0.take(i as int)[m] is Some) by {
                            assert(it[m] == ids.take(i as int)[m] && ft[m] == f0.take(i as int)[m]);
                        }
                        assert(before.by_session.contains_key(it[k]));
                        if it[k] == sid@ {
                            assert(!self@.by_session.contains_key(sid@) || before.by_session.contains_key(sid@));
                        }
                    } else {
                        assert(k == i);
                        if before.by_session.contains_key(sid@) {
                            let m = choose|m: int| 0 <= m < ids.take(i as int).len() && ids.take(i as int)[m] == sid@
                                && f0.take(i as int)[m] is Some;
                            assert(it[m] == ids.take(i as int)[m] && ft[m] == f0.take(i as int)[m]);
                            assert(false);
                        }
                    }
                }
            }
            i = i + 1;
        }
        proof {
            assert(ids.take(n as int) == ids);
            assert(f0.take(n as int) == f0);
        }
    }

    /// The team working in session `session_id`, if any.
    pub fn team_for_session(&self, session_id: &str) -> (r: Option<&TeamState>)
        ensures
            match r {
                Some(t) => self@.by_session.contains_key(session_id@) && self@.by_session[session_id@] == *t,
                None => !self@.by_session.contains_key(session_id@),
            },
    {
        self.team_states.get(session_id)
    }

    /// The members other than the leader of the team working in session
    /// `session_id`, in order; none without a team.
    pub fn teammates_for_session(&self, session_id: &str) -> (r: Vec<&TeamMember>)
        ensures
            match self@.by_session.get(session_id@) {
                Some(t) => r@.map_values(|m: &TeamMember| *m) == t.members@.filter(|m: TeamMember| !m.is_leader),
                None => r@.len() == 0,
            },
    {
        let mut out: Vec<&TeamMember> = Vec::new();
        match self.team_states.get(session_id) {
            Some(t) => {
                let mut i: usize = 0;
                while i < t.members.len()
                    invariant
                        i <= t.members@.len(),
                        out@.map_values(|m: &TeamMember| *m) == t.members@.take(i as int).filter(
                            |m: TeamMember| !m.is_leader,
                        ),
                    decreases t.members@.len() - i,
                {
                    proof {
                        assert(t.members@.take(i + 1) == t.members@.take(i as int).push(t.members@[i as int]));
                        t.members@.take(i as int).lemma_filter_push(t.members@[i as int], |m: TeamMember| !m.is_leader);
                    }
                    if !t.members[i].is_leader {
                        let ghost before = out@;
                        out.push(&t.members[i]);
                        proof {
                            assert(out@.map_values(|m: &TeamMember| *m) =~= before.map_values(|m: &TeamMember| *m).push(
                                t.members@[i as int],
                            ));
                        }
                    }
                    i = i + 1;
                }
                proof {
                    assert(t.members@.take(t.members@.len() as int) == t.members@);
                }
            },
            None => {},
        }
        out
    }
}

} // verus!
