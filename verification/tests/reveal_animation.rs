//! Tests of the reveal animation: the render-pass handshake and the
//! time-driven phase transitions.

use termfolio::anim::{consume_animation, RevealAnimation, RevealPhase, CONTENT_REVEAL_MS};
use termfolio::state::AppState;

#[test]
fn tab_change_requests_one_replay_and_a_render_pass_consumes_it() {
    let mut s = AppState::new();
    let mut a = RevealAnimation::new(CONTENT_REVEAL_MS);
    s.should_animate = false;
    s.next_tab();
    assert!(s.should_animate);
    consume_animation(&mut s, &mut a);
    assert!(!s.should_animate);
    assert_eq!(a.phase, RevealPhase::Playing);
    assert_eq!(a.elapsed_ms, 0);
    // The reveal turns idle once its fixed duration has elapsed.
    a.tick(CONTENT_REVEAL_MS - 1);
    assert_eq!(a.phase, RevealPhase::Playing);
    a.tick(1);
    assert_eq!(a.phase, RevealPhase::Idle);
}

#[test]
fn render_pass_without_request_leaves_animation_alone() {
    let mut s = AppState::new();
    let mut a = RevealAnimation::new(CONTENT_REVEAL_MS);
    s.should_animate = false;
    consume_animation(&mut s, &mut a);
    assert_eq!(a.phase, RevealPhase::Idle);
    consume_animation(&mut s, &mut a);
    assert_eq!(a.phase, RevealPhase::Idle);
}

#[test]
fn new_animation_is_idle_until_started() {
    let a = RevealAnimation::new(500);
    assert_eq!(a.phase, RevealPhase::Idle);
    assert!(!a.is_running());
    // An unstarted transition reads as fully revealed.
    assert_eq!(a.elapsed_ms, 500);
    assert_eq!(a.progress_permille(), 1000);
}

#[test]
fn restart_mid_flight_begins_from_fully_hidden() {
    let mut a = RevealAnimation::new(500);
    a.start();
    a.tick(300);
    assert_eq!(a.elapsed_ms, 300);
    a.start();
    assert_eq!(a.elapsed_ms, 0);
    assert_eq!(a.phase, RevealPhase::Playing);
    a.tick(499);
    assert_eq!(a.phase, RevealPhase::Playing);
    a.tick(1);
    assert_eq!(a.phase, RevealPhase::Idle);
}

#[test]
fn idle_animation_ignores_time() {
    let mut a = RevealAnimation::new(500);
    a.tick(10_000);
    assert_eq!(a.phase, RevealPhase::Idle);
    assert_eq!(a.elapsed_ms, 500);
}

#[test]
fn overshooting_tick_saturates_at_the_duration() {
    let mut a = RevealAnimation::new(500);
    a.start();
    a.tick(u32::MAX);
    assert_eq!(a.phase, RevealPhase::Idle);
    assert_eq!(a.elapsed_ms, 500);
}

#[test]
fn progress_runs_from_zero_to_one_thousand() {
    let mut a = RevealAnimation::new(500);
    a.start();
    assert_eq!(a.progress_permille(), 0);
    a.tick(125);
    assert_eq!(a.progress_permille(), 250);
    a.tick(125);
    assert_eq!(a.progress_permille(), 500);
    a.tick(250);
    assert_eq!(a.progress_permille(), 1000);
}
