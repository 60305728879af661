//! Timing of the text-reveal transition played on every tab change.
//! The transition is a visual transform only: it is either idle or
//! playing, its progress is driven by elapsed wall-clock time, and it
//! restarts from fully hidden on every tab change, even mid-flight.
//! The host program maps the phase to its effect primitives; this
//! module decides when the animation runs and when it ends.

use vstd::prelude::*;

use crate::state::AppState;

verus! {

/// Duration of the content panel's reveal, in milliseconds.
pub const CONTENT_REVEAL_MS: u32 = 500;

/// Duration of the banner's transition, in milliseconds: a sweep
/// across and back, then a reveal.
pub const BANNER_SWEEP_MS: u32 = 750;

/// Phase of the reveal transition.
#[derive(Clone, Copy, Debug, PartialEq, Eq, Structural)]
pub enum RevealPhase {
    /// No transition in flight; content is fully shown.
    Idle,
    /// The content is being revealed.
    Playing,
}

/// A time-windowed reveal: playing from zero up to a fixed duration,
/// then idle until restarted.
#[derive(Clone, Copy, Debug, PartialEq, Eq, Structural)]
pub struct RevealAnimation {
    /// Whether the transition is in flight.
    pub phase: RevealPhase,
    /// Wall-clock time since the last start, in milliseconds.
    pub elapsed_ms: u32,
    /// Fixed length of the transition, in milliseconds.
    pub duration_ms: u32,
}

impl RevealAnimation {
    /// The duration is positive, the clock never passes it, and a
    /// playing transition has time left.
    pub open spec fn wf(&self) -> bool {
        &&& self.duration_ms > 0
        &&& self.elapsed_ms <= self.duration_ms
        &&& (self.phase is Playing ==> self.elapsed_ms < self.duration_ms)
    }

    /// A transition of the given length, idle until the first start.
    /// The clock starts at the duration: an unstarted transition reads
    /// as fully revealed, exactly as one that has ended.
    pub fn new(duration_ms: u32) -> (a: Self)
        requires
            duration_ms > 0,
        ensures
            a.wf(),
            a.phase is Idle,
            a.elapsed_ms == duration_ms,
            a.duration_ms == duration_ms,
    {
        RevealAnimation { phase: RevealPhase::Idle, elapsed_ms: duration_ms, duration_ms }
    }

    /// Restarts the transition from fully hidden.  A transition already
    /// in flight starts over from the beginning.
    pub fn start(&mut self)
        requires
            old(self).wf(),
        ensures
            final(self).wf(),
            final(self).phase is Playing,
            final(self).elapsed_ms == 0,
            final(self).duration_ms == old(self).duration_ms,
    {
        self.phase = RevealPhase::Playing;
        self.elapsed_ms = 0;
    }

    /// Advances the clock by `delta_ms` elapsed milliseconds.  A playing
    /// transition that reaches its duration ends and turns idle; an idle
    /// one is left alone.  Progress follows the wall clock, so replay
    /// behavior does not depend on the frame rate.
    pub fn tick(&mut self, delta_ms: u32)
        requires
            old(self).wf(),
        ensures
            final(self).wf(),
            final(self).duration_ms == old(self).duration_ms,
            old(self).phase is Idle ==> *final(self) == *old(self),
            old(self).phase is Playing && delta_ms < old(self).duration_ms - old(self).elapsed_ms
                ==> final(self).phase is Playing && final(self).elapsed_ms == old(self).elapsed_ms
                + delta_ms,
            old(self).phase is Playing && delta_ms >= old(self).duration_ms - old(self).elapsed_ms
                ==> final(self).phase is Idle && final(self).elapsed_ms == old(self).duration_ms,
    {
        match self.phase {
            RevealPhase::Idle => {
            },
            RevealPhase::Playing => {
                let left: u32 = self.duration_ms - self.elapsed_ms;
                if delta_ms < left {
                    self.elapsed_ms = self.elapsed_ms + delta_ms;
                } else {
                    self.elapsed_ms = self.duration_ms;
                    self.phase = RevealPhase::Idle;
                }
            },
        }
    }

    /// Whether the transition is still in flight.
    pub fn is_running(&self) -> (r: bool)
        ensures
            r == (self.phase is Playing),
    {
        match self.phase {
            RevealPhase::Playing => true,
            RevealPhase::Idle => false,
        }
    }

    /// How far the reveal has come, in thousandths of the duration:
    /// zero just after a start, one thousand once the transition ends.
    pub fn progress_permille(&self) -> (r: u16)
        requires
            self.wf(),
        ensures
            r == self.elapsed_ms as int * 1000 / self.duration_ms as int,
            r <= 1000,
    {
        proof {
            assert(self.elapsed_ms as int * 1000 / self.duration_ms as int <= 1000)
                by (nonlinear_arith)
                requires
                    self.elapsed_ms <= self.duration_ms && self.duration_ms > 0,
            ;
        }
        ((self.elapsed_ms as u64 * 1000) / (self.duration_ms as u64)) as u16
    }
}

/// Hands a pending animation request from the view state to the
/// transition, once per render pass: a request set by a tab change is
/// consumed and the reveal restarts from fully hidden; without one the
/// transition is left alone.
pub fn consume_animation(state: &mut AppState, anim: &mut RevealAnimation)
    requires
        old(state).wf(),
        old(anim).wf(),
    ensures
        final(state).wf(),
        final(anim).wf(),
        !final(state).should_animate,
        old(state).should_animate ==> final(anim).phase is Playing && final(anim).elapsed_ms == 0,
        !old(state).should_animate ==> *final(anim) == *old(anim),
        final(anim).duration_ms == old(anim).duration_ms,
        final(state).tab_index == old(state).tab_index,
        final(state).scroll_positions@ == old(state).scroll_positions@,
        final(state).max_scroll@ == old(state).max_scroll@,
{
    if state.should_animate {
        state.should_animate = false;
        anim.start();
    }
}

} // verus!
