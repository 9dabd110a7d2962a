//! The terminal tabs of one kild: adding, closing, cycling and renaming.
use vstd::prelude::*;
use crate::text::{decimal_digits, owned, push_decimal, push_str};

verus! {

/// How a terminal tab was created.
#[derive(Debug, Clone)]
pub enum TerminalBackend {
    /// A shell started by the dashboard itself.
    Local,
    /// A session of the kild daemon.
    Daemon { daemon_session_id: String },
}

/// One terminal tab. `V` is the terminal view shown in it.
pub struct TabEntry<V> {
    pub view: V,
    pub label: String,
    pub backend: TerminalBackend,
}

/// The tabs of one kild and which of them is active.
pub struct TerminalTabs<V> {
    pub tabs: Vec<TabEntry<V>>,
    pub active: usize,
    /// The number the next tab's label gets.
    pub next_id: usize,
}

/// The label of the `n`-th tab created: `Shell n`, prefixed with `D • `
/// for a daemon session.
pub open spec fn tab_label(n: nat, daemon: bool) -> Seq<char> {
    let base = "Shell "@ + decimal_digits(n);
    if daemon {
        "D • "@ + base
    } else {
        base
    }
}

/// The active tab after closing tab `closed`, leaving `new_len` tabs: the
/// same tab when it stays, the one before when a tab before it closed, and
/// the new last tab when the active one was the last.
pub open spec fn active_after_close(active: int, closed: int, new_len: int) -> int {
    if new_len == 0 {
        0
    } else if active >= new_len {
        new_len - 1
    } else if active > closed {
        active - 1
    } else {
        active
    }
}

/// Computes the active tab after closing tab `closed`, leaving `new_len`.
pub fn adjust_active_after_close(active: usize, closed: usize, new_len: usize) -> (r: usize)
    ensures
        r == active_after_close(active as int, closed as int, new_len as int),
{
    if new_len == 0 {
        0
    } else if active >= new_len {
        new_len - 1
    } else if active > closed {
        active - 1
    } else {
        active
    }
}

impl<V> TerminalTabs<V> {
    /// The active tab is a tab, or there are none and it is 0.
    pub open spec fn wf(&self) -> bool {
        if self.tabs@.len() == 0 {
            self.active == 0
        } else {
            self.active < self.tabs@.len()
        }
    }

    /// The number the next tab's label gets.
    pub open spec fn next_number(&self) -> nat {
        self.next_id as nat
    }

    /// No tabs; the first tab will be number 1.
    pub fn new() -> (r: TerminalTabs<V>)
        ensures
            r.tabs@.len() == 0,
            r.active == 0,
            r.next_number() == 1,
            r.wf(),
    {
        TerminalTabs { tabs: Vec::new(), active: 0, next_id: 1 }
    }

    /// The number of tabs.
    pub fn len(&self) -> (r: usize)
        ensures
            r == self.tabs@.len(),
    {
        self.tabs.len()
    }

    /// Whether there are no tabs.
    pub fn is_empty(&self) -> (r: bool)
        ensures
            r == (self.tabs@.len() == 0),
    {
        self.tabs.len() == 0
    }

    /// The view of the active tab, if there is one.
    pub fn active_view(&self) -> (r: Option<&V>)
        ensures
            match r {
                Some(v) => self.active < self.tabs@.len() && *v == self.tabs@[self.active as int].view,
                None => self.active >= self.tabs@.len(),
            },
    {
        if self.active < self.tabs.len() {
            Some(&self.tabs[self.active].view)
        } else {
            None
        }
    }

    /// Adds a tab showing `view` and makes it active. It is labelled
    /// `Shell n` (`D • Shell n` for a daemon session), `n` counting the tabs
    /// ever added.
    pub fn push(&mut self, view: V, backend: TerminalBackend)
        requires
            old(self).next_number() < usize::MAX,
        ensures
            final(self).tabs@.len() == old(self).tabs@.len() + 1,
            final(self).tabs@.take(old(self).tabs@.len() as int) == old(self).tabs@,
            final(self).tabs@.last().view == view,
            final(self).tabs@.last().backend == backend,
            final(self).tabs@.last().label@ == tab_label(old(self).next_number(), backend is Daemon),
            final(self).active == old(self).tabs@.len(),
            final(self).next_number() == old(self).next_number() + 1,
            final(self).wf(),
    {
        let mut label = owned("Shell ");
        push_decimal(&mut label, self.next_id as u64);
        let label = match &backend {
            TerminalBackend::Local => label,
            TerminalBackend::Daemon { .. } => {
                let mut l = owned("D • ");
                push_str(&mut l, label.as_str());
                l
            },
        };
        let ghost before = self.tabs@;
        self.tabs.push(TabEntry { view, label, backend });
        assert(self.tabs@.take(before.len() as int) =~= before);
        self.active = self.tabs.len() - 1;
        self.next_id = self.next_id + 1;
    }

    /// Closes tab `idx`, returning its daemon session id when it was a
    /// daemon session (so that it can be stopped). Does nothing for a tab
    /// that does not exist.
    pub fn close(&mut self, idx: usize) -> (r: Option<String>)
        ensures
            idx >= old(self).tabs@.len() ==> {
                &&& r is None
                &&& final(self).tabs@ == old(self).tabs@
                &&& final(self).active == old(self).active
            },
            idx < old(self).tabs@.len() ==> {
                &&& final(self).tabs@ == old(self).tabs@.remove(idx as int)
                &&& final(self).active == active_after_close(
                    old(self).active as int,
                    idx as int,
                    final(self).tabs@.len() as int,
                )
                &&& match old(self).tabs@[idx as int].backend {
                    TerminalBackend::Local => r is None,
                    TerminalBackend::Daemon { daemon_session_id } => r matches Some(s) && s@
                        == daemon_session_id@,
                }
            },
            final(self).next_number() == old(self).next_number(),
            idx < old(self).tabs@.len() || old(self).wf() ==> final(self).wf(),
    {
        if idx >= self.tabs.len() {
            return None;
        }
        let daemon_id = match &self.tabs[idx].backend {
            TerminalBackend::Local => None,
            TerminalBackend::Daemon { daemon_session_id } => Some(daemon_session_id.clone()),
        };
        self.tabs.remove(idx);
        self.active = adjust_active_after_close(self.active, idx, self.tabs.len());
        daemon_id
    }

    /// Makes the next tab active, wrapping; nothing with fewer than two tabs.
    pub fn cycle_next(&mut self)
        requires
            old(self).tabs@.len() == 0 || old(self).active < old(self).tabs@.len(),
        ensures
            final(self).tabs@ == old(self).tabs@,
            final(self).active == (if old(self).tabs@.len() > 1 {
                (old(self).active + 1) % (old(self).tabs@.len() as int)
            } else {
                old(self).active as int
            }),
            final(self).next_number() == old(self).next_number(),
            final(self).tabs@.len() == 0 || final(self).active < final(self).tabs@.len(),
            old(self).wf() ==> final(self).wf(),
    {
        if self.tabs.len() > 1 {
            self.active = (self.active + 1) % self.tabs.len();
        }
    }

    /// Makes the previous tab active, wrapping; nothing with fewer than two
    /// tabs.
    pub fn cycle_prev(&mut self)
        requires
            old(self).tabs@.len() == 0 || old(self).active < old(self).tabs@.len(),
        ensures
            final(self).tabs@ == old(self).tabs@,
            final(self).active == (if old(self).tabs@.len() > 1 {
                if old(self).active == 0 {
                    old(self).tabs@.len() - 1
                } else {
                    old(self).active - 1
                }
            } else {
                old(self).active as int
            }),
            final(self).next_number() == old(self).next_number(),
            final(self).tabs@.len() == 0 || final(self).active < final(self).tabs@.len(),
            old(self).wf() ==> final(self).wf(),
    {
        if self.tabs.len() > 1 {
            self.active = if self.active == 0 { self.tabs.len() - 1 } else { self.active - 1 };
        }
    }

    /// Renames tab `idx`; does nothing for a tab that does not exist.
    pub fn rename(&mut self, idx: usize, name: String)
        ensures
            final(self).tabs@.len() == old(self).tabs@.len(),
            forall|i: int| 0 <= i < old(self).tabs@.len() && i != idx ==> #[trigger] final(self).tabs@[i]
                == old(self).tabs@[i],
            idx < old(self).tabs@.len() ==> {
                &&& final(self).tabs@[idx as int].label == name
                &&& final(self).tabs@[idx as int].view == old(self).tabs@[idx as int].view
                &&& final(self).tabs@[idx as int].backend == old(self).tabs@[idx as int].backend
            },
            final(self).active == old(self).active,
            final(self).next_number() == old(self).next_number(),
    {
        if idx < self.tabs.len() {
            let mut tabs: Vec<TabEntry<V>> = Vec::new();
            std::mem::swap(&mut tabs, &mut self.tabs);
            let TabEntry { view, label: _, backend } = tabs.remove(idx);
            tabs.insert(idx, TabEntry { view, label: name, backend });
            self.tabs = tabs;
            assert(forall|i: int| 0 <= i < old(self).tabs@.len() && i != idx ==> #[trigger] self.tabs@[i]
                == old(self).tabs@[i]);
        }
    }
}

/// Closing a tab keeps the active tab valid, and keeps the same tab active
/// unless it was the one closed.
pub proof fn lemma_close_keeps_active_tab(active: int, closed: int, len: int)
    requires
        0 <= active < len,
        0 <= closed < len,
    ensures
        len - 1 == 0 ==> active_after_close(active, closed, len - 1) == 0,
        len - 1 > 0 ==> 0 <= active_after_close(active, closed, len - 1) < len - 1,
        active < closed ==> active_after_close(active, closed, len - 1) == active,
        active > closed ==> active_after_close(active, closed, len - 1) == active - 1,
{
}

/// Cycling forward through all tabs of a kild returns to the tab one
/// started from, and cycling back undoes cycling forward.
pub proof fn lemma_cycle_undo(active: int, len: int)
    requires
        0 <= active < len,
        len > 1,
    ensures
        ({
            let n = (active + 1) % len;
            (if n == 0 { len - 1 } else { n - 1 }) == active
        }),
{
    if active + 1 < len {
        assert((active + 1) % len == active + 1) by (nonlinear_arith)
            requires
                0 <= active + 1 < len,
        ;
    } else {
        assert((active + 1) % len == 0) by (nonlinear_arith)
            requires
                active + 1 == len,
                len > 0,
        ;
    }
}

} // verus!
