//! The terminal attached to each kild session, which one is focused, and
//! which kild each daemon session belongs to.
use vstd::prelude::*;
use crate::strmap::{without_value, StrMap};
use crate::text::{owned, str_eq};

verus! {

/// Terminals keyed by kild session id. `T` is the terminal view the
/// dashboard shows; it is only stored and handed back.
pub struct TerminalStore<T> {
    terminals: StrMap<T>,
    daemon_to_kild: StrMap<String>,
    focused_kild: Option<String>,
}

/// The content of a terminal store.
pub struct TerminalStoreView<T> {
    pub terminals: Map<Seq<char>, T>,
    pub daemon_to_kild: Map<Seq<char>, String>,
    pub focused: Option<Seq<char>>,
}

impl<T> View for TerminalStore<T> {
    type V = TerminalStoreView<T>;

    closed spec fn view(&self) -> TerminalStoreView<T> {
        TerminalStoreView {
            terminals: self.terminals@,
            daemon_to_kild: self.daemon_to_kild@,
            focused: match self.focused_kild {
                Some(f) => Some(f@),
                None => None,
            },
        }
    }
}

impl<T> TerminalStore<T> {
    /// No terminals, no daemon sessions, nothing focused.
    pub fn new() -> (r: TerminalStore<T>)
        ensures
            r@.terminals == Map::<Seq<char>, T>::empty(),
            r@.daemon_to_kild == Map::<Seq<char>, String>::empty(),
            r@.focused is None,
    {
        TerminalStore { terminals: StrMap::new(), daemon_to_kild: StrMap::new(), focused_kild: None }
    }

    /// Registers `entity` as the terminal of kild `kild_id`, whose daemon
    /// session is `daemon_session_id`.
    pub fn attach_terminal(&mut self, kild_id: String, daemon_session_id: String, entity: T)
        ensures
            final(self)@.terminals == old(self)@.terminals.insert(kild_id@, entity),
            final(self)@.daemon_to_kild.dom() == old(self)@.daemon_to_kild.dom().insert(daemon_session_id@),
            final(self)@.daemon_to_kild[daemon_session_id@]@ == kild_id@,
            forall|d: Seq<char>| d != daemon_session_id@ && old(self)@.daemon_to_kild.contains_key(d)
                ==> #[trigger] final(self)@.daemon_to_kild[d] == old(self)@.daemon_to_kild[d],
            final(self)@.focused == old(self)@.focused,
    {
        let kild = owned(kild_id.as_str());
        self.daemon_to_kild.insert(daemon_session_id.as_str(), kild);
        self.terminals.insert(kild_id.as_str(), entity);
    }

    /// Drops the terminal of kild `kild_id`, forgets its daemon sessions,
    /// and clears the focus if it was focused.
    pub fn detach_terminal(&mut self, kild_id: &str)
        ensures
            final(self)@.terminals == old(self)@.terminals.remove(kild_id@),
            final(self)@.daemon_to_kild == without_value(old(self)@.daemon_to_kild, kild_id@),
            final(self)@.focused == (if old(self)@.focused == Some(kild_id@) {
                None
            } else {
                old(self)@.focused
            }),
    {
        self.terminals.remove(kild_id);
        self.daemon_to_kild.remove_value(kild_id);
        let focused = match &self.focused_kild {
            Some(f) => str_eq(f.as_str(), kild_id),
            None => false,
        };
        if focused {
            self.focused_kild = None;
        }
    }

    /// The terminal of kild `kild_id`, if attached.
    pub fn get_terminal(&self, kild_id: &str) -> (r: Option<&T>)
        ensures
            match r {
                Some(t) => self@.terminals.contains_key(kild_id@) && self@.terminals[kild_id@] == *t,
                None => !self@.terminals.contains_key(kild_id@),
            },
    {
        self.terminals.get(kild_id)
    }

    /// Whether kild `kild_id` has a terminal attached.
    pub fn has_terminal(&self, kild_id: &str) -> (r: bool)
        ensures
            r == self@.terminals.contains_key(kild_id@),
    {
        self.terminals.contains_key(kild_id)
    }

    /// The terminal of the focused kild, if there is one.
    pub fn focused_terminal(&self) -> (r: Option<&T>)
        ensures
            match r {
                Some(t) => self@.focused matches Some(f) && self@.terminals.contains_key(f)
                    && self@.terminals[f] == *t,
                None => !(self@.focused matches Some(f) && self@.terminals.contains_key(f)),
            },
    {
        match &self.focused_kild {
            Some(f) => self.terminals.get(f.as_str()),
            None => None,
        }
    }

    /// The focused kild's id, if any.
    pub fn focused_kild_id(&self) -> (r: Option<&str>)
        ensures
            match r {
                Some(f) => self@.focused == Some(f@),
                None => self@.focused is None,
            },
    {
        match &self.focused_kild {
            Some(f) => Some(f.as_str()),
            None => None,
        }
    }

    /// Focuses the terminal of kild `kild_id`.
    pub fn set_focus(&mut self, kild_id: &str)
        ensures
            final(self)@.focused == Some(kild_id@),
            final(self)@.terminals == old(self)@.terminals,
            final(self)@.daemon_to_kild == old(self)@.daemon_to_kild,
    {
        self.focused_kild = Some(owned(kild_id));
    }

    /// Focuses no terminal.
    pub fn clear_focus(&mut self)
        ensures
            final(self)@.focused is None,
            final(self)@.terminals == old(self)@.terminals,
            final(self)@.daemon_to_kild == old(self)@.daemon_to_kild,
    {
        self.focused_kild = None;
    }

    /// The kild that daemon session `daemon_session_id` belongs to, if known.
    pub fn kild_for_daemon(&self, daemon_session_id: &str) -> (r: Option<&str>)
        ensures
            match r {
                Some(k) => self@.daemon_to_kild.contains_key(daemon_session_id@)
                    && self@.daemon_to_kild[daemon_session_id@]@ == k@,
                None => !self@.daemon_to_kild.contains_key(daemon_session_id@),
            },
    {
        match self.daemon_to_kild.get(daemon_session_id) {
            Some(k) => Some(k.as_str()),
            None => None,
        }
    }
}

/// Detaching a kild's terminal leaves no terminal, no daemon session and no
/// focus pointing at it, and touches no other kild's terminal.
pub proof fn lemma_detach_forgets_kild<T>(v: TerminalStoreView<T>, kild: Seq<char>, other: Seq<char>)
    ensures
        !v.terminals.remove(kild).contains_key(kild),
        forall|d: Seq<char>| #[trigger] without_value(v.daemon_to_kild, kild).contains_key(d)
            ==> without_value(v.daemon_to_kild, kild)[d]@ != kild,
        other != kild ==> v.terminals.remove(kild).contains_key(other) == v.terminals.contains_key(other),
{
}

} // verus!
