//! Cursor blinking: whether the cursor is painted, and which timer cycle
//! may still toggle it.
use vstd::prelude::*;

verus! {

/// Cursor blink state. Each restart of the blink timer starts a new cycle
/// numbered by `epoch`; ticks of older cycles are ignored, so at most one
/// timer toggles the cursor.
#[derive(Clone, Copy, Debug, PartialEq, Eq, Structural)]
pub struct BlinkManager {
    pub visible: bool,
    pub enabled: bool,
    pub epoch: usize,
}

/// The epoch after `e`, wrapping around.
pub open spec fn next_epoch(e: usize) -> usize {
    if e == usize::MAX { 0 } else { (e + 1) as usize }
}

impl BlinkManager {
    /// Not blinking, cursor shown, no cycle started.
    pub fn new() -> (r: BlinkManager)
        ensures
            r == (BlinkManager { visible: true, enabled: false, epoch: 0 }),
    {
        BlinkManager { visible: true, enabled: false, epoch: 0 }
    }

    /// Whether the cursor is painted: always when not blinking.
    pub fn visible(&self) -> (r: bool)
        ensures
            r == (!self.enabled || self.visible),
    {
        !self.enabled || self.visible
    }

    fn start_cycle(&mut self) -> (r: usize)
        ensures
            final(self).epoch == next_epoch(old(self).epoch),
            final(self).visible == old(self).visible,
            final(self).enabled == old(self).enabled,
            r == final(self).epoch,
    {
        self.epoch = self.epoch.wrapping_add(1);
        self.epoch
    }

    /// Starts blinking with the cursor shown; returns the epoch of the new
    /// timer cycle to start.
    pub fn enable(&mut self) -> (r: usize)
        ensures
            *final(self) == (BlinkManager { visible: true, enabled: true, epoch: next_epoch(old(self).epoch) }),
            r == final(self).epoch,
    {
        self.enabled = true;
        self.visible = true;
        self.start_cycle()
    }

    /// Shows the cursor and restarts the timer (on each keystroke), when
    /// blinking; returns the epoch of the new timer cycle to start.
    pub fn pause(&mut self) -> (r: Option<usize>)
        ensures
            !old(self).enabled ==> r is None && *final(self) == *old(self),
            old(self).enabled ==> {
                &&& *final(self) == (BlinkManager { visible: true, enabled: true, epoch: next_epoch(old(self).epoch) })
                &&& r == Some(final(self).epoch)
            },
    {
        if !self.enabled {
            return None;
        }
        self.visible = true;
        Some(self.start_cycle())
    }

    /// A tick of the timer cycle `epoch`: toggles the cursor and returns
    /// `true` (keep ticking) for the current cycle; returns `false` (stop)
    /// and changes nothing for an older one.
    pub fn tick(&mut self, epoch: usize) -> (r: bool)
        ensures
            r == (epoch == old(self).epoch),
            r ==> *final(self) == (BlinkManager { visible: !old(self).visible, ..*old(self) }),
            !r ==> *final(self) == *old(self),
    {
        if self.epoch != epoch {
            return false;
        }
        self.visible = !self.visible;
        true
    }
}

/// After any restart of the timer, only the cycle it started toggles the
/// cursor: ticks of the cycle before are ignored.
pub proof fn lemma_restart_silences_old_cycle(b: BlinkManager)
    ensures
        next_epoch(b.epoch) != b.epoch,
{
}

/// Two ticks of the current cycle bring the cursor back to how it was.
pub proof fn lemma_two_ticks(b: BlinkManager)
    ensures
        (BlinkManager { visible: !(BlinkManager { visible: !b.visible, ..b }).visible, ..b }) == b,
{
}

} // verus!
