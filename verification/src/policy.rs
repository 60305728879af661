//! Responsive policy: an ordered table of viewport-width ranges, each
//! carrying one scroll ceiling per tab and the caption shown under the
//! tab bar.  The ranges are contiguous and cover every width, so exactly
//! one of them matches any viewport.  The policy is re-evaluated on every
//! render pass, since the viewport can be resized between passes.

use vstd::prelude::*;

use crate::state::AppState;
use crate::state::TAB_COUNT;

verus! {

/// Number of width ranges in the table.
pub const BREAKPOINT_COUNT: usize = 5;

/// Caption shown when the selected tab can scroll: all four key pairs.
pub const HINT_ALL_KEYS: &'static str = "h/l or arrow keys: switch tabs | j/k or arrow keys: scroll";

/// Caption shown when the selected tab has nothing to scroll.
pub const HINT_TAB_KEYS: &'static str = "h/l or arrow keys: switch tabs";

/// Lower bound of width range `i`, inclusive.
pub open spec fn bp_min(i: int) -> u16 {
    if i == 0 {
        0
    } else if i == 1 {
        51
    } else if i == 2 {
        65
    } else if i == 3 {
        101
    } else {
        116
    }
}

/// Upper bound of width range `i`, inclusive.
pub open spec fn bp_max(i: int) -> u16 {
    if i == 0 {
        50
    } else if i == 1 {
        64
    } else if i == 2 {
        100
    } else if i == 3 {
        115
    } else {
        u16::MAX
    }
}

/// Index of the width range that `w` falls in.
pub open spec fn bp_index(w: u16) -> int {
    if w <= 50 {
        0
    } else if w <= 64 {
        1
    } else if w <= 100 {
        2
    } else if w <= 115 {
        3
    } else {
        4
    }
}

/// Scroll ceiling of each tab in width range `i`: the narrower the
/// viewport, the more the wrapped content overflows its panel.  The
/// fourth tab scrolls sideways through a wide piece of character art,
/// so its ceiling falls to zero only on wide viewports.
pub open spec fn bp_ceilings(i: int) -> Seq<u16> {
    if i == 0 {
        seq![2u16, 2u16, 20u16, 75u16]
    } else if i == 1 {
        seq![2u16, 1u16, 14u16, 55u16]
    } else if i == 2 {
        seq![1u16, 1u16, 9u16, 30u16]
    } else if i == 3 {
        seq![0u16, 0u16, 5u16, 10u16]
    } else {
        seq![0u16, 0u16, 3u16, 0u16]
    }
}

/// Scroll ceilings that a viewport of width `w` grants each tab.
pub open spec fn ceilings_for(w: u16) -> Seq<u16> {
    bp_ceilings(bp_index(w))
}

/// One row of the breakpoint table: a width range with the scroll
/// configuration it grants.
pub struct Breakpoint {
    /// Smallest viewport width of the range, inclusive.
    pub min_width: u16,
    /// Largest viewport width of the range, inclusive.
    pub max_width: u16,
    /// Scroll ceiling granted to each tab, one entry per tab.
    pub scroll_ceilings: Vec<u16>,
}

impl Breakpoint {
    /// The breakpoint is row `i` of the table.
    pub open spec fn is_row(&self, i: int) -> bool {
        &&& self.min_width == bp_min(i)
        &&& self.max_width == bp_max(i)
        &&& self.scroll_ceilings@ == bp_ceilings(i)
    }

    /// Width `w` falls inside this breakpoint's range.
    pub open spec fn matches(&self, w: u16) -> bool {
        self.min_width <= w <= self.max_width
    }
}

/// The breakpoint whose width range holds `w`.  Total: every width maps
/// to a row of the table.
pub fn width_to_breakpoint(w: u16) -> (bp: Breakpoint)
    ensures
        bp.is_row(bp_index(w)),
        bp.matches(w),
        bp.scroll_ceilings@ == ceilings_for(w),
        bp.scroll_ceilings@.len() == TAB_COUNT,
{
    let bp: Breakpoint = if w <= 50 {
        Breakpoint {
            min_width: 0,
            max_width: 50,
            scroll_ceilings: vec![2u16, 2u16, 20u16, 75u16],
        }
    } else if w <= 64 {
        Breakpoint {
            min_width: 51,
            max_width: 64,
            scroll_ceilings: vec![2u16, 1u16, 14u16, 55u16],
        }
    } else if w <= 100 {
        Breakpoint {
            min_width: 65,
            max_width: 100,
            scroll_ceilings: vec![1u16, 1u16, 9u16, 30u16],
        }
    } else if w <= 115 {
        Breakpoint {
            min_width: 101,
            max_width: 115,
            scroll_ceilings: vec![0u16, 0u16, 5u16, 10u16],
        }
    } else {
        Breakpoint {
            min_width: 116,
            max_width: u16::MAX,
            scroll_ceilings: vec![0u16, 0u16, 3u16, 0u16],
        }
    };
    proof {
        assert(bp.scroll_ceilings@ =~= bp_ceilings(bp_index(w)));
    }
    bp
}

/// Law: the width ranges partition the widths.  Every width falls in
/// the range of its row, and in no other row: no width is unmatched,
/// none is matched twice.
pub proof fn lemma_breakpoint_partition(w: u16)
    ensures
        0 <= bp_index(w) < BREAKPOINT_COUNT,
        bp_min(bp_index(w)) <= w <= bp_max(bp_index(w)),
        forall|i: int|
            0 <= i < BREAKPOINT_COUNT && #[trigger] bp_min(i) <= w <= bp_max(i) ==> i == bp_index(
                w,
            ),
{
}

/// Law: the table's rows are contiguous, from width zero up to the
/// largest width a terminal can report.
pub proof fn lemma_breakpoint_rows_contiguous()
    ensures
        bp_min(0) == 0,
        bp_max(BREAKPOINT_COUNT - 1) == u16::MAX,
        forall|i: int| 0 <= i < BREAKPOINT_COUNT - 1 ==> #[trigger] bp_max(i) + 1 == bp_min(i + 1),
{
}

/// Writes the ceilings of the breakpoint matched by `width` into the
/// view state, one per tab.  The scroll offsets are left as they are,
/// even where a lowered ceiling falls below one of them.
pub fn apply_breakpoint(state: &mut AppState, width: u16)
    requires
        old(state).wf(),
    ensures
        final(state).wf(),
        final(state).max_scroll@ == ceilings_for(width),
        final(state).tab_index == old(state).tab_index,
        final(state).should_animate == old(state).should_animate,
        final(state).scroll_positions@ == old(state).scroll_positions@,
{
    let bp: Breakpoint = width_to_breakpoint(width);
    let mut t: usize = 0;
    while t < TAB_COUNT
        invariant
            old(state).wf(),
            state.wf(),
            t <= TAB_COUNT,
            bp.scroll_ceilings@ == ceilings_for(width),
            bp.scroll_ceilings@.len() == TAB_COUNT,
            forall|k: int| 0 <= k < t ==> state.max_scroll@[k] == ceilings_for(width)[k],
            forall|k: int|
                t <= k < TAB_COUNT ==> state.max_scroll@[k] == old(state).max_scroll@[k],
            state.tab_index == old(state).tab_index,
            state.should_animate == old(state).should_animate,
            state.scroll_positions@ == old(state).scroll_positions@,
        decreases TAB_COUNT - t,
    {
        state.update_max_scroll(t, bp.scroll_ceilings[t]);
        t = t + 1;
    }
    proof {
        assert(state.max_scroll@ =~= ceilings_for(width));
    }
}

/// Caption for the tab bar as the hint spec function states it: every
/// key pair when the selected tab can scroll, the tab keys alone when
/// it cannot.
pub open spec fn spec_hint_text(width: u16, active_tab: int) -> Seq<char> {
    if ceilings_for(width)[active_tab] > 0 {
        HINT_ALL_KEYS@
    } else {
        HINT_TAB_KEYS@
    }
}

/// Caption to show under the tab bar for this viewport width and
/// selected tab.
pub fn hint_text(width: u16, active_tab: usize) -> (r: &'static str)
    requires
        active_tab < TAB_COUNT,
    ensures
        r@ == spec_hint_text(width, active_tab as int),
{
    let bp: Breakpoint = width_to_breakpoint(width);
    if bp.scroll_ceilings[active_tab] > 0 {
        HINT_ALL_KEYS
    } else {
        HINT_TAB_KEYS
    }
}

} // verus!
