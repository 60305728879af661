//! Tests of the responsive policy: the breakpoint partition, the two
//! documented viewport scenarios, and the tab-bar hint.

use termfolio::policy::{
    apply_breakpoint, hint_text, width_to_breakpoint, Breakpoint, HINT_ALL_KEYS, HINT_TAB_KEYS,
};
use termfolio::state::AppState;

fn table() -> Vec<Breakpoint> {
    // One representative width per documented range.
    vec![
        width_to_breakpoint(40),
        width_to_breakpoint(60),
        width_to_breakpoint(80),
        width_to_breakpoint(110),
        width_to_breakpoint(200),
    ]
}

#[test]
fn every_width_matches_exactly_one_breakpoint() {
    let rows = table();
    for w in 0..=u16::MAX {
        let matching: Vec<&Breakpoint> = rows
            .iter()
            .filter(|bp| bp.min_width <= w && w <= bp.max_width)
            .collect();
        assert_eq!(matching.len(), 1, "width {} matched {} rows", w, matching.len());
        let bp = width_to_breakpoint(w);
        assert_eq!(bp.min_width, matching[0].min_width);
        assert_eq!(bp.max_width, matching[0].max_width);
        assert_eq!(bp.scroll_ceilings, matching[0].scroll_ceilings);
    }
}

#[test]
fn documented_range_bounds() {
    let rows = table();
    let bounds: Vec<(u16, u16)> = rows.iter().map(|bp| (bp.min_width, bp.max_width)).collect();
    assert_eq!(
        bounds,
        vec![(0, 50), (51, 64), (65, 100), (101, 115), (116, u16::MAX)]
    );
}

#[test]
fn range_edges_fall_in_their_own_rows() {
    assert_eq!(width_to_breakpoint(50).max_width, 50);
    assert_eq!(width_to_breakpoint(51).min_width, 51);
    assert_eq!(width_to_breakpoint(64).max_width, 64);
    assert_eq!(width_to_breakpoint(65).min_width, 65);
    assert_eq!(width_to_breakpoint(100).max_width, 100);
    assert_eq!(width_to_breakpoint(101).min_width, 101);
    assert_eq!(width_to_breakpoint(115).max_width, 115);
    assert_eq!(width_to_breakpoint(116).min_width, 116);
}

#[test]
fn narrow_viewport_scenario() {
    // Width 40: the first two tabs get ceiling 2, the third gets 20,
    // and the caption names all four key pairs whatever tab is active.
    let bp = width_to_breakpoint(40);
    assert_eq!(bp.scroll_ceilings[0], 2);
    assert_eq!(bp.scroll_ceilings[1], 2);
    assert_eq!(bp.scroll_ceilings[2], 20);
    for tab in 0..4 {
        assert_eq!(hint_text(40, tab), HINT_ALL_KEYS);
    }
}

#[test]
fn wide_viewport_scenario() {
    // Width 200: only the third tab can scroll (ceiling 3); the caption
    // offers scrolling only while that tab is active.
    let bp = width_to_breakpoint(200);
    assert_eq!(bp.scroll_ceilings, vec![0, 0, 3, 0]);
    assert_eq!(hint_text(200, 0), HINT_TAB_KEYS);
    assert_eq!(hint_text(200, 1), HINT_TAB_KEYS);
    assert_eq!(hint_text(200, 2), HINT_ALL_KEYS);
    assert_eq!(hint_text(200, 3), HINT_TAB_KEYS);
}

#[test]
fn apply_breakpoint_writes_ceilings_and_nothing_else() {
    let mut s = AppState::new();
    s.next_tab();
    s.should_animate = false;
    apply_breakpoint(&mut s, 40);
    assert_eq!(s.max_scroll, vec![2, 2, 20, 75]);
    assert_eq!(s.tab_index, 1);
    assert!(!s.should_animate);
    assert_eq!(s.scroll_positions, vec![0, 0, 0, 0]);
    apply_breakpoint(&mut s, 200);
    assert_eq!(s.max_scroll, vec![0, 0, 3, 0]);
}
