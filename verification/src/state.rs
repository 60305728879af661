//! View state of the page: the selected tab, one scroll offset and one
//! scroll ceiling per tab, and the flag that requests a replay of the
//! text-reveal animation.  The state is mutated only by the key-driven
//! operations below.

use vstd::prelude::*;

verus! {

/// Number of tabbed sections shown in the tab bar.
pub const TAB_COUNT: usize = 4;

/// Tab index that follows `i` in the rotation of the tab bar.
pub open spec fn next_index(i: int) -> int {
    (i + 1) % (TAB_COUNT as int)
}

/// Tab index that precedes `i` in the rotation of the tab bar.
pub open spec fn prev_index(i: int) -> int {
    (i + (TAB_COUNT as int) - 1) % (TAB_COUNT as int)
}

/// Scroll offset after one step down, held at the ceiling `ceil`.
pub open spec fn scroll_down_step(off: u16, ceil: u16) -> u16 {
    if off < ceil {
        (off + 1) as u16
    } else {
        off
    }
}

/// Scroll offset after one step up, held at zero.
pub open spec fn scroll_up_step(off: u16) -> u16 {
    if off > 0 {
        (off - 1) as u16
    } else {
        off
    }
}

/// One discrete input event of the key surface: the four recognized
/// actions.  Unrecognized keys never reach the state.
#[derive(Clone, Copy, Debug, PartialEq, Eq, Structural)]
pub enum InputAction {
    NextTab,
    PreviousTab,
    ScrollDown,
    ScrollUp,
}

/// Action bound to a character key, if any: `l`/`L` and `h`/`H` switch
/// tabs, `j`/`J` and `k`/`K` scroll.  Every other character is ignored.
pub open spec fn spec_key_action(c: char) -> Option<InputAction> {
    if c == 'l' || c == 'L' {
        Some(InputAction::NextTab)
    } else if c == 'h' || c == 'H' {
        Some(InputAction::PreviousTab)
    } else if c == 'j' || c == 'J' {
        Some(InputAction::ScrollDown)
    } else if c == 'k' || c == 'K' {
        Some(InputAction::ScrollUp)
    } else {
        None
    }
}

/// Maps a character key to the action it triggers, or `None` for a key
/// that the page ignores.
pub fn action_for_char(c: char) -> (r: Option<InputAction>)
    ensures
        r == spec_key_action(c),
{
    match c {
        'l' | 'L' => Some(InputAction::NextTab),
        'h' | 'H' => Some(InputAction::PreviousTab),
        'j' | 'J' => Some(InputAction::ScrollDown),
        'k' | 'K' => Some(InputAction::ScrollUp),
        _ => None,
    }
}

/// The single mutable record behind the page.
pub struct AppState {
    /// Index of the selected tab, always below [`TAB_COUNT`].
    pub tab_index: usize,
    /// Set by every tab change; consumed by the next render pass, which
    /// then replays the reveal animation.
    pub should_animate: bool,
    /// Scroll offset of each tab's content panel.
    pub scroll_positions: Vec<u16>,
    /// Largest allowed scroll offset of each tab's content panel.
    pub max_scroll: Vec<u16>,
}

impl AppState {
    /// Structural well-formedness: the tab index is in range and both
    /// per-tab tables have one entry per tab.
    pub open spec fn wf(&self) -> bool {
        &&& self.tab_index < TAB_COUNT
        &&& self.scroll_positions@.len() == TAB_COUNT
        &&& self.max_scroll@.len() == TAB_COUNT
    }

    /// Every scroll offset lies within its tab's ceiling.  All scroll
    /// steps preserve this; see [`AppState::update_max_scroll`] for the
    /// one operation that may break it.
    pub open spec fn clamped(&self) -> bool {
        forall|t: int|
            0 <= t < TAB_COUNT ==> self.scroll_positions@[t] <= self.max_scroll@[t]
    }

    /// The startup state: first tab selected, nothing scrolled, no
    /// scrolling allowed yet, and one animation replay pending.
    pub fn new() -> (s: Self)
        ensures
            s.wf(),
            s.clamped(),
            s.tab_index == 0,
            s.should_animate,
            forall|t: int| 0 <= t < TAB_COUNT ==> s.scroll_positions@[t] == 0,
            forall|t: int| 0 <= t < TAB_COUNT ==> s.max_scroll@[t] == 0,
    {
        AppState {
            tab_index: 0,
            should_animate: true,
            scroll_positions: vec![0u16, 0u16, 0u16, 0u16],
            max_scroll: vec![0u16, 0u16, 0u16, 0u16],
        }
    }

    /// Selects the tab to the right, wrapping to the first past the last,
    /// and requests an animation replay.
    pub fn next_tab(&mut self)
        requires
            old(self).wf(),
        ensures
            final(self).wf(),
            final(self).tab_index == next_index(old(self).tab_index as int),
            final(self).should_animate,
            final(self).scroll_positions@ == old(self).scroll_positions@,
            final(self).max_scroll@ == old(self).max_scroll@,
    {
        self.tab_index = (self.tab_index + 1) % TAB_COUNT;
        self.should_animate = true;
    }

    /// Selects the tab to the left, wrapping to the last before the
    /// first, and requests an animation replay.
    pub fn previous_tab(&mut self)
        requires
            old(self).wf(),
        ensures
            final(self).wf(),
            final(self).tab_index == prev_index(old(self).tab_index as int),
            final(self).should_animate,
            final(self).scroll_positions@ == old(self).scroll_positions@,
            final(self).max_scroll@ == old(self).max_scroll@,
    {
        if self.tab_index > 0 {
            self.tab_index = self.tab_index - 1;
        } else {
            self.tab_index = TAB_COUNT - 1;
        }
        self.should_animate = true;
    }

    /// Scrolls the selected tab one line down, stopping at its ceiling.
    /// Scrolling past the ceiling is a no-op, not an error.
    pub fn scroll_down(&mut self)
        requires
            old(self).wf(),
        ensures
            final(self).wf(),
            final(self).scroll_positions@ == old(self).scroll_positions@.update(
                old(self).tab_index as int,
                scroll_down_step(
                    old(self).scroll_positions@[old(self).tab_index as int],
                    old(self).max_scroll@[old(self).tab_index as int],
                ),
            ),
            final(self).tab_index == old(self).tab_index,
            final(self).should_animate == old(self).should_animate,
            final(self).max_scroll@ == old(self).max_scroll@,
            old(self).clamped() ==> final(self).clamped(),
    {
        let t: usize = self.tab_index;
        if self.scroll_positions[t] < self.max_scroll[t] {
            let v: u16 = self.scroll_positions[t] + 1;
            self.scroll_positions.set(t, v);
        }
        proof {
            assert(self.scroll_positions@ =~= old(self).scroll_positions@.update(
                old(self).tab_index as int,
                scroll_down_step(
                    old(self).scroll_positions@[old(self).tab_index as int],
                    old(self).max_scroll@[old(self).tab_index as int],
                ),
            ));
        }
    }

    /// Scrolls the selected tab one line up, stopping at zero.  Scrolling
    /// above the top is a no-op, not an error.
    pub fn scroll_up(&mut self)
        requires
            old(self).wf(),
        ensures
            final(self).wf(),
            final(self).scroll_positions@ == old(self).scroll_positions@.update(
                old(self).tab_index as int,
                scroll_up_step(old(self).scroll_positions@[old(self).tab_index as int]),
            ),
            final(self).tab_index == old(self).tab_index,
            final(self).should_animate == old(self).should_animate,
            final(self).max_scroll@ == old(self).max_scroll@,
            old(self).clamped() ==> final(self).clamped(),
    {
        let t: usize = self.tab_index;
        if self.scroll_positions[t] > 0 {
            let v: u16 = self.scroll_positions[t] - 1;
            self.scroll_positions.set(t, v);
        }
        proof {
            assert(self.scroll_positions@ =~= old(self).scroll_positions@.update(
                old(self).tab_index as int,
                scroll_up_step(old(self).scroll_positions@[old(self).tab_index as int]),
            ));
        }
    }

    /// Overwrites the scroll ceiling of `tab`.  Called once per tab on
    /// every render pass, alongside a full redraw, by the responsive
    /// policy.  The new ceiling may drop below the tab's current offset:
    /// the offset is left as it is, and only a later scroll step brings
    /// it back within the bound.
    pub fn update_max_scroll(&mut self, tab: usize, new_max: u16)
        requires
            old(self).wf(),
            tab < TAB_COUNT,
        ensures
            final(self).wf(),
            final(self).max_scroll@ == old(self).max_scroll@.update(tab as int, new_max),
            final(self).tab_index == old(self).tab_index,
            final(self).should_animate == old(self).should_animate,
            final(self).scroll_positions@ == old(self).scroll_positions@,
    {
        self.max_scroll.set(tab, new_max);
    }

    /// Applies one recognized input action to the state.
    pub fn apply(&mut self, action: InputAction)
        requires
            old(self).wf(),
        ensures
            final(self).wf(),
            action == InputAction::NextTab ==> final(self).tab_index == next_index(
                old(self).tab_index as int,
            ) && final(self).should_animate,
            action == InputAction::PreviousTab ==> final(self).tab_index == prev_index(
                old(self).tab_index as int,
            ) && final(self).should_animate,
            action == InputAction::ScrollDown || action == InputAction::ScrollUp
                ==> final(self).tab_index == old(self).tab_index
                && final(self).should_animate == old(self).should_animate,
            action == InputAction::ScrollDown ==> final(self).scroll_positions@
                == old(self).scroll_positions@.update(
                old(self).tab_index as int,
                scroll_down_step(
                    old(self).scroll_positions@[old(self).tab_index as int],
                    old(self).max_scroll@[old(self).tab_index as int],
                ),
            ),
            action == InputAction::ScrollUp ==> final(self).scroll_positions@
                == old(self).scroll_positions@.update(
                old(self).tab_index as int,
                scroll_up_step(old(self).scroll_positions@[old(self).tab_index as int]),
            ),
            action == InputAction::NextTab || action == InputAction::PreviousTab
                ==> final(self).scroll_positions@ == old(self).scroll_positions@,
            final(self).max_scroll@ == old(self).max_scroll@,
            old(self).clamped() ==> final(self).clamped(),
    {
        match action {
            InputAction::NextTab => self.next_tab(),
            InputAction::PreviousTab => self.previous_tab(),
            InputAction::ScrollDown => self.scroll_down(),
            InputAction::ScrollUp => self.scroll_up(),
        }
    }
}

/// Result of stepping the tab rotation of a bar of `n` tabs `k` times
/// from index `i`.
pub open spec fn rotate(i: int, n: int, k: nat) -> int
    decreases k,
{
    if k == 0 {
        i
    } else {
        (rotate(i, n, (k - 1) as nat) + 1) % n
    }
}

/// Stepping the rotation `k` times lands on `(i + k) % n`.
proof fn lemma_rotate_shift(i: int, n: int, k: nat)
    requires
        1 <= n,
        0 <= i < n,
    ensures
        rotate(i, n, k) == (i + k) % n,
    decreases k,
{
    if k == 0 {
        vstd::arithmetic::div_mod::lemma_small_mod(i as nat, n as nat);
    } else {
        lemma_rotate_shift(i, n, (k - 1) as nat);
        vstd::arithmetic::div_mod::lemma_add_mod_noop_right(1, i + k - 1, n);
    }
}

/// Law: moving to the next tab `n` times, on a bar of `n` tabs, returns
/// to the starting index, whatever that index is.
pub proof fn lemma_next_tab_round_trip(i: int, n: int)
    requires
        1 <= n,
        0 <= i < n,
    ensures
        rotate(i, n, n as nat) == i,
{
    lemma_rotate_shift(i, n, n as nat);
    vstd::arithmetic::div_mod::lemma_mod_add_multiples_vanish(i, n);
    vstd::arithmetic::div_mod::lemma_small_mod(i as nat, n as nat);
}

/// Result of applying [`next_index`] `k` times from index `i`: the tab
/// reached after `k` presses of the next-tab key.
pub open spec fn iterate_next(i: int, k: nat) -> int
    decreases k,
{
    if k == 0 {
        i
    } else {
        next_index(iterate_next(i, (k - 1) as nat))
    }
}

/// Law, on this page's own tab bar: pressing the next-tab key once per
/// tab returns to the starting tab.
pub proof fn lemma_next_index_round_trip(i: int)
    requires
        0 <= i < TAB_COUNT,
    ensures
        iterate_next(i, TAB_COUNT as nat) == i,
{
    reveal_with_fuel(iterate_next, 5);
    assert(iterate_next(i, TAB_COUNT as nat) == i);
}

/// Law: the previous-tab step is the exact inverse of the next-tab step,
/// for every tab index.
pub proof fn lemma_prev_inverts_next(i: int)
    requires
        0 <= i < TAB_COUNT,
    ensures
        prev_index(next_index(i)) == i,
{
}

/// Law: a step down is a no-op once the offset stands at the ceiling.
pub proof fn lemma_scroll_down_fixed_at_ceiling(off: u16, ceil: u16)
    requires
        off == ceil,
    ensures
        scroll_down_step(off, ceil) == off,
{
}

/// Law: a step up is a no-op once the offset stands at zero.
pub proof fn lemma_scroll_up_fixed_at_zero(off: u16)
    requires
        off == 0,
    ensures
        scroll_up_step(off) == off,
{
}

} // verus!
