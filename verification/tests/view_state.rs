//! Tests of the view state: tab rotation, scroll clamping, key mapping.

use termfolio::state::{action_for_char, AppState, InputAction, TAB_COUNT};

#[test]
fn new_state_starts_zeroed_with_animation_pending() {
    let s = AppState::new();
    assert_eq!(s.tab_index, 0);
    assert!(s.should_animate);
    assert_eq!(s.scroll_positions, vec![0, 0, 0, 0]);
    assert_eq!(s.max_scroll, vec![0, 0, 0, 0]);
}

#[test]
fn next_tab_advances_and_wraps() {
    let mut s = AppState::new();
    s.next_tab();
    assert_eq!(s.tab_index, 1);
    s.next_tab();
    assert_eq!(s.tab_index, 2);
    s.next_tab();
    assert_eq!(s.tab_index, 3);
    s.next_tab();
    assert_eq!(s.tab_index, 0);
}

#[test]
fn next_tab_n_times_returns_to_start_from_any_index() {
    for start in 0..TAB_COUNT {
        let mut s = AppState::new();
        for _ in 0..start {
            s.next_tab();
        }
        assert_eq!(s.tab_index, start);
        for _ in 0..TAB_COUNT {
            s.next_tab();
        }
        assert_eq!(s.tab_index, start);
    }
}

#[test]
fn previous_tab_inverts_next_tab_everywhere() {
    for start in 0..TAB_COUNT {
        let mut s = AppState::new();
        for _ in 0..start {
            s.next_tab();
        }
        s.next_tab();
        s.previous_tab();
        assert_eq!(s.tab_index, start);
    }
}

#[test]
fn previous_tab_wraps_to_last() {
    let mut s = AppState::new();
    s.previous_tab();
    assert_eq!(s.tab_index, TAB_COUNT - 1);
}

#[test]
fn tab_changes_request_animation() {
    let mut s = AppState::new();
    s.should_animate = false;
    s.next_tab();
    assert!(s.should_animate);
    s.should_animate = false;
    s.previous_tab();
    assert!(s.should_animate);
}

#[test]
fn scroll_down_stops_at_ceiling() {
    let mut s = AppState::new();
    s.update_max_scroll(0, 2);
    s.scroll_down();
    assert_eq!(s.scroll_positions[0], 1);
    s.scroll_down();
    assert_eq!(s.scroll_positions[0], 2);
    s.scroll_down();
    assert_eq!(s.scroll_positions[0], 2);
    s.scroll_down();
    assert_eq!(s.scroll_positions[0], 2);
}

#[test]
fn scroll_up_stops_at_zero() {
    let mut s = AppState::new();
    s.update_max_scroll(0, 2);
    s.scroll_down();
    s.scroll_up();
    assert_eq!(s.scroll_positions[0], 0);
    s.scroll_up();
    assert_eq!(s.scroll_positions[0], 0);
}

#[test]
fn scrolling_with_zero_ceiling_is_a_no_op() {
    let mut s = AppState::new();
    s.scroll_down();
    assert_eq!(s.scroll_positions, vec![0, 0, 0, 0]);
    s.scroll_up();
    assert_eq!(s.scroll_positions, vec![0, 0, 0, 0]);
}

#[test]
fn scrolling_touches_only_the_selected_tab() {
    let mut s = AppState::new();
    for t in 0..TAB_COUNT {
        s.update_max_scroll(t, 5);
    }
    s.next_tab();
    s.scroll_down();
    s.scroll_down();
    assert_eq!(s.scroll_positions, vec![0, 2, 0, 0]);
}

#[test]
fn lowered_ceiling_leaves_offset_in_place() {
    // Known edge: recomputing a smaller ceiling does not clamp an
    // already-elevated offset; only a later scroll step re-enters it.
    let mut s = AppState::new();
    s.update_max_scroll(0, 5);
    for _ in 0..5 {
        s.scroll_down();
    }
    assert_eq!(s.scroll_positions[0], 5);
    s.update_max_scroll(0, 2);
    assert_eq!(s.scroll_positions[0], 5);
    s.scroll_down();
    assert_eq!(s.scroll_positions[0], 5);
    s.scroll_up();
    assert_eq!(s.scroll_positions[0], 4);
}

#[test]
fn character_keys_map_to_their_actions() {
    assert_eq!(action_for_char('l'), Some(InputAction::NextTab));
    assert_eq!(action_for_char('L'), Some(InputAction::NextTab));
    assert_eq!(action_for_char('h'), Some(InputAction::PreviousTab));
    assert_eq!(action_for_char('H'), Some(InputAction::PreviousTab));
    assert_eq!(action_for_char('j'), Some(InputAction::ScrollDown));
    assert_eq!(action_for_char('J'), Some(InputAction::ScrollDown));
    assert_eq!(action_for_char('k'), Some(InputAction::ScrollUp));
    assert_eq!(action_for_char('K'), Some(InputAction::ScrollUp));
    assert_eq!(action_for_char('x'), None);
    assert_eq!(action_for_char(' '), None);
}

#[test]
fn apply_dispatches_each_action() {
    let mut s = AppState::new();
    s.update_max_scroll(1, 3);
    s.apply(InputAction::NextTab);
    assert_eq!(s.tab_index, 1);
    s.apply(InputAction::ScrollDown);
    assert_eq!(s.scroll_positions[1], 1);
    s.apply(InputAction::ScrollUp);
    assert_eq!(s.scroll_positions[1], 0);
    s.apply(InputAction::PreviousTab);
    assert_eq!(s.tab_index, 0);
}
