//! Layout of the multiplexer view: which kild is focused, which are
//! minimised, what the sidebar shows, and how the main area is split.
use vstd::prelude::*;
use crate::strmap::StrMap;
use crate::text::{owned, str_eq};

verus! {

/// How the main area is divided into two panes.
#[derive(Debug, Clone, Copy, PartialEq, Eq, Structural)]
pub enum SplitDirection {
    Horizontal,
    Vertical,
}

/// What the sidebar shows.
#[derive(Debug, Clone, PartialEq, Eq)]
pub enum SidebarMode {
    /// The list of kilds.
    List,
    /// The details of one kild.
    Detail { kild_id: String },
}

/// The content of a sidebar mode.
pub enum SidebarView {
    List,
    Detail(Seq<char>),
}

/// The content of a sidebar mode value.
pub open spec fn sidebar_view(m: SidebarMode) -> SidebarView {
    match m {
        SidebarMode::List => SidebarView::List,
        SidebarMode::Detail { kild_id } => SidebarView::Detail(kild_id@),
    }
}

/// The smallest split ratio, in thousandths of the main area.
pub const MIN_SPLIT_RATIO: u32 = 100;

/// The largest split ratio, in thousandths of the main area.
pub const MAX_SPLIT_RATIO: u32 = 900;

/// The split ratio of a new split: half and half.
pub const DEFAULT_SPLIT_RATIO: u32 = 500;

/// A split of the main area: the direction, the terminal shown in the second
/// pane (the first always shows the focused kild) and the share of the first
/// pane in thousandths.
#[derive(Debug, Clone)]
pub struct SplitConfig {
    pub direction: SplitDirection,
    pub second_id: String,
    pub ratio: u32,
}

/// The content of a split.
pub struct SplitView {
    pub direction: SplitDirection,
    pub second_id: Seq<char>,
    pub ratio: int,
}

/// The content of an optional split.
pub open spec fn split_view(s: Option<SplitConfig>) -> Option<SplitView> {
    match s {
        Some(c) => Some(SplitView { direction: c.direction, second_id: c.second_id@, ratio: c.ratio as int }),
        None => None,
    }
}

/// The content of the layout.
pub struct LayoutView {
    pub focused: Option<Seq<char>>,
    pub minimized: Set<Seq<char>>,
    pub sidebar: SidebarView,
    pub split: Option<SplitView>,
    pub saved_split: Option<SplitView>,
}

/// Whether a split's ratio is within bounds (or there is no split).
pub open spec fn ratio_in_bounds(s: Option<SplitView>) -> bool {
    s matches Some(c) ==> MIN_SPLIT_RATIO <= c.ratio <= MAX_SPLIT_RATIO
}

/// The layout after focusing `id`: it is focused and no longer minimised.
pub open spec fn focus_step(v: LayoutView, id: Seq<char>) -> LayoutView {
    LayoutView { focused: Some(id), minimized: v.minimized.remove(id), ..v }
}

/// The layout after minimising `id`: it is minimised, and unfocused if it
/// was the focused kild.
pub open spec fn minimize_step(v: LayoutView, id: Seq<char>) -> LayoutView {
    LayoutView {
        minimized: v.minimized.insert(id),
        focused: if v.focused == Some(id) { None } else { v.focused },
        ..v
    }
}

/// The sidebar after toggling the details of `id`: back to the list if it
/// showed exactly those details, else those details.
pub open spec fn toggle_step(v: LayoutView, id: Seq<char>) -> LayoutView {
    LayoutView {
        sidebar: if v.sidebar == SidebarView::Detail(id) { SidebarView::List } else { SidebarView::Detail(id) },
        ..v
    }
}

/// The layout after maximising: the split is saved and cleared.
pub open spec fn maximize_step(v: LayoutView) -> LayoutView {
    LayoutView { saved_split: v.split, split: None, ..v }
}

/// The layout after restoring: a saved split comes back (and is no longer
/// saved); without one nothing changes.
pub open spec fn restore_step(v: LayoutView) -> LayoutView {
    match v.saved_split {
        Some(s) => LayoutView { split: Some(s), saved_split: None, ..v },
        None => v,
    }
}

/// `r` clamped to the allowed split ratios.
pub open spec fn clamp_ratio(r: int) -> int {
    if r < MIN_SPLIT_RATIO {
        MIN_SPLIT_RATIO as int
    } else if r > MAX_SPLIT_RATIO {
        MAX_SPLIT_RATIO as int
    } else {
        r
    }
}

/// The layout after setting the split ratio: the clamped ratio when split.
pub open spec fn ratio_step(v: LayoutView, r: int) -> LayoutView {
    match v.split {
        Some(s) => LayoutView { split: Some(SplitView { ratio: clamp_ratio(r), ..s }), ..v },
        None => v,
    }
}

/// Layout state of the multiplexer view.
pub struct LayoutState {
    focused_kild: Option<String>,
    minimized: StrMap<()>,
    sidebar_mode: SidebarMode,
    split: Option<SplitConfig>,
    saved_split: Option<SplitConfig>,
}

impl View for LayoutState {
    type V = LayoutView;

    closed spec fn view(&self) -> LayoutView {
        LayoutView {
            focused: match self.focused_kild {
                Some(f) => Some(f@),
                None => None,
            },
            minimized: self.minimized@.dom(),
            sidebar: sidebar_view(self.sidebar_mode),
            split: split_view(self.split),
            saved_split: split_view(self.saved_split),
        }
    }
}

impl LayoutState {
    /// Split ratios stay within bounds.
    #[verifier::type_invariant]
    spec fn ratios_in_bounds(self) -> bool {
        &&& ratio_in_bounds(split_view(self.split))
        &&& ratio_in_bounds(split_view(self.saved_split))
    }

    /// Nothing focused or minimised, the sidebar listing kilds, no split.
    pub fn new() -> (r: LayoutState)
        ensures
            r@.focused is None,
            r@.minimized == Set::<Seq<char>>::empty(),
            r@.sidebar == SidebarView::List,
            r@.split is None,
            r@.saved_split is None,
    {
        let r = LayoutState {
            focused_kild: None,
            minimized: StrMap::new(),
            sidebar_mode: SidebarMode::List,
            split: None,
            saved_split: None,
        };
        assert(r@.minimized =~= Set::<Seq<char>>::empty());
        r
    }

    /// Focuses the kild `id`, taking it out of the minimised set.
    pub fn focus_kild(&mut self, id: &str)
        ensures
            final(self)@ == focus_step(old(self)@, id@),
    {
        proof {
            use_type_invariant(&*self);
        }
        let mut minimized: StrMap<()> = StrMap::new();
        std::mem::swap(&mut minimized, &mut self.minimized);
        minimized.remove(id);
        self.minimized = minimized;
        self.focused_kild = Some(owned(id));
        assert(self@.minimized =~= old(self)@.minimized.remove(id@));
    }

    /// Minimises the kild `id`, clearing the focus if it was focused.
    pub fn minimize_kild(&mut self, id: &str)
        ensures
            final(self)@ == minimize_step(old(self)@, id@),
    {
        proof {
            use_type_invariant(&*self);
        }
        let mut minimized: StrMap<()> = StrMap::new();
        std::mem::swap(&mut minimized, &mut self.minimized);
        minimized.insert(id, ());
        self.minimized = minimized;
        assert(self@.minimized =~= old(self)@.minimized.insert(id@));
        let is_focused = match &self.focused_kild {
            Some(f) => str_eq(f.as_str(), id),
            None => false,
        };
        if is_focused {
            self.focused_kild = None;
        }
    }

    /// Shows the details of `kild_id` in the sidebar, or goes back to the
    /// list if they are already shown.
    pub fn toggle_sidebar_detail(&mut self, kild_id: &str)
        ensures
            final(self)@ == toggle_step(old(self)@, kild_id@),
    {
        proof {
            use_type_invariant(&*self);
        }
        let showing = match &self.sidebar_mode {
            SidebarMode::Detail { kild_id: shown } => str_eq(shown.as_str(), kild_id),
            SidebarMode::List => false,
        };
        if showing {
            self.sidebar_mode = SidebarMode::List;
        } else {
            self.sidebar_mode = SidebarMode::Detail { kild_id: owned(kild_id) };
        }
    }

    /// The focused kild, if any.
    pub fn focused_kild(&self) -> (r: Option<&str>)
        ensures
            match r {
                Some(f) => self@.focused == Some(f@),
                None => self@.focused is None,
            },
    {
        match &self.focused_kild {
            Some(f) => Some(f.as_str()),
            None => None,
        }
    }

    /// Whether the kild `kild_id` is minimised.
    pub fn is_minimized(&self, kild_id: &str) -> (r: bool)
        ensures
            r == self@.minimized.contains(kild_id@),
    {
        self.minimized.contains_key(kild_id)
    }

    /// The minimised kilds.
    pub fn minimized_ids(&self) -> (r: &StrMap<()>)
        ensures
            r@.dom() == self@.minimized,
    {
        &self.minimized
    }

    /// What the sidebar shows.
    pub fn sidebar_mode(&self) -> (r: &SidebarMode)
        ensures
            sidebar_view(*r) == self@.sidebar,
    {
        &self.sidebar_mode
    }

    /// The current split, if any; its ratio is always within bounds.
    pub fn split(&self) -> (r: Option<&SplitConfig>)
        ensures
            match r {
                Some(c) => self@.split == split_view(Some(*c)) && MIN_SPLIT_RATIO <= c.ratio <= MAX_SPLIT_RATIO,
                None => self@.split is None,
            },
    {
        proof {
            use_type_invariant(self);
        }
        match &self.split {
            Some(c) => Some(c),
            None => None,
        }
    }

    /// Splits the main area, showing `second_id` in the second pane, half
    /// and half.
    pub fn split_with(&mut self, direction: SplitDirection, second_id: String)
        ensures
            final(self)@ == (LayoutView {
                split: Some(SplitView { direction, second_id: second_id@, ratio: DEFAULT_SPLIT_RATIO as int }),
                ..old(self)@
            }),
    {
        proof {
            use_type_invariant(&*self);
        }
        self.split = Some(SplitConfig { direction, second_id, ratio: DEFAULT_SPLIT_RATIO });
    }

    /// Goes back to a single pane.
    pub fn unsplit(&mut self)
        ensures
            final(self)@ == (LayoutView { split: None, ..old(self)@ }),
    {
        proof {
            use_type_invariant(&*self);
        }
        self.split = None;
    }

    /// Maximises the focused pane, saving the split.
    pub fn maximize(&mut self)
        ensures
            final(self)@ == maximize_step(old(self)@),
    {
        proof {
            use_type_invariant(&*self);
        }
        let mut s: Option<SplitConfig> = None;
        std::mem::swap(&mut s, &mut self.split);
        self.saved_split = s;
    }

    /// Brings back the split saved by `maximize`, if any.
    pub fn restore(&mut self)
        ensures
            final(self)@ == restore_step(old(self)@),
    {
        proof {
            use_type_invariant(&*self);
        }
        let mut saved: Option<SplitConfig> = None;
        std::mem::swap(&mut saved, &mut self.saved_split);
        if let Some(s) = saved {
            self.split = Some(s);
        }
    }

    /// Whether the main area is split.
    pub fn is_split(&self) -> (r: bool)
        ensures
            r == self@.split is Some,
    {
        self.split.is_some()
    }

    /// Sets the split ratio (in thousandths), clamped to between
    /// `MIN_SPLIT_RATIO` and `MAX_SPLIT_RATIO`; does nothing without a split.
    pub fn set_split_ratio(&mut self, ratio: u32)
        ensures
            final(self)@ == ratio_step(old(self)@, ratio as int),
    {
        proof {
            use_type_invariant(&*self);
        }
        let clamped = if ratio < MIN_SPLIT_RATIO {
            MIN_SPLIT_RATIO
        } else if ratio > MAX_SPLIT_RATIO {
            MAX_SPLIT_RATIO
        } else {
            ratio
        };
        let mut current: Option<SplitConfig> = None;
        std::mem::swap(&mut current, &mut self.split);
        if let Some(c) = current {
            self.split = Some(SplitConfig { direction: c.direction, second_id: c.second_id, ratio: clamped });
        }
    }
}

/// Focusing a kild always leaves it focused and not minimised, whatever
/// was minimised before.
pub proof fn lemma_focus_unminimizes(v: LayoutView, id: Seq<char>)
    ensures
        focus_step(v, id).focused == Some(id),
        !focus_step(v, id).minimized.contains(id),
        forall|other: Seq<char>| other != id ==> (#[trigger] focus_step(v, id).minimized.contains(other)
            == v.minimized.contains(other)),
{
}

/// Minimising a kild clears the focus only when that kild was focused.
pub proof fn lemma_minimize_keeps_other_focus(v: LayoutView, id: Seq<char>)
    ensures
        minimize_step(v, id).minimized.contains(id),
        v.focused != Some(id) ==> minimize_step(v, id).focused == v.focused,
        v.focused == Some(id) ==> minimize_step(v, id).focused is None,
{
}

/// Toggling the same kild's details twice returns the sidebar to where it
/// was, when it showed the list or that kild's details.
pub proof fn lemma_toggle_twice(v: LayoutView, id: Seq<char>)
    requires
        v.sidebar == SidebarView::List || v.sidebar == SidebarView::Detail(id),
    ensures
        toggle_step(toggle_step(v, id), id) == v,
{
}

/// Restoring after maximising brings back the split that was there, and
/// leaves nothing saved.
pub proof fn lemma_maximize_then_restore(v: LayoutView)
    ensures
        restore_step(maximize_step(v)).split == v.split,
        restore_step(maximize_step(v)).saved_split is None,
        restore_step(maximize_step(v)).focused == v.focused,
        restore_step(maximize_step(v)).minimized == v.minimized,
{
}

/// Setting the split ratio keeps it within bounds, and a ratio already
/// within bounds is taken as given.
pub proof fn lemma_ratio_clamped(v: LayoutView, r: int)
    ensures
        ratio_in_bounds(ratio_step(v, r).split),
        v.split is Some && MIN_SPLIT_RATIO <= r <= MAX_SPLIT_RATIO ==> ratio_step(v, r).split->0.ratio == r,
{
}

} // verus!
