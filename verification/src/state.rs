//! The shared control-plane record and the time-gated colorloop animation.
//!
//! `State` is the one mutable record the control surface and the update loop
//! share. Callers keep it behind a mutex; every method here is a single
//! critical-section body, so a caller that holds the lock across one call
//! never observes a torn combination of fields.
use crate::color::{hue_to_rgb, spec_hue_rgb, Rgb};
use vstd::prelude::*;

verus! {

/// The colorloop advances at most once per this many milliseconds.
pub const MIN_ADVANCE_INTERVAL_MS: u64 = 15;

/// The shared control state of the lamp.
#[derive(Clone, Copy, PartialEq, Eq, Structural, Debug)]
pub struct State {
    /// The static target color, shown while the colorloop is inactive.
    pub led_color: Rgb,
    /// Master switch: while false the resolved output is black.
    pub led_on: bool,
    /// Whether the hue-rotation animation drives the output color.
    pub colorloop: bool,
    /// Current animation phase, in 0..360 degrees of hue.
    pub colorloop_progress: u16,
    /// Timestamp (milliseconds) of the last animation phase advance.
    pub last_animation_update: u64,
    /// The color produced by the most recent phase advance; red (the color
    /// of phase 0) before any advance has happened.
    pub last_loop_color: Rgb,
}

/// A consistent copy of every field needed to resolve the output color,
/// taken in one critical section so no combination is torn.
#[derive(Clone, Copy, PartialEq, Eq, Structural, Debug)]
pub struct Snapshot {
    pub is_on: bool,
    pub colorloop_active: bool,
    pub color: Rgb,
    pub hue_phase: u16,
    pub loop_color: Rgb,
}

/// Milliseconds elapsed from `last` to `now`; zero if the clock moved back.
pub open spec fn elapsed_ms(last: u64, now: u64) -> u64 {
    if now >= last {
        (now - last) as u64
    } else {
        0
    }
}

/// The phase after one advance: one degree further, wrapping to 0 at 360.
pub open spec fn next_phase(p: u16) -> u16
    recommends
        p < 360,
{
    if p + 1 < 360 {
        (p + 1) as u16
    } else {
        0
    }
}

impl State {
    /// The state invariant: the hue phase stays inside the wheel.
    pub open spec fn wf(self) -> bool {
        self.colorloop_progress < 360
    }

    /// Whether a call of `advance_phase_if_due` at time `now_ms` advances:
    /// the colorloop is active and the minimum interval has elapsed.
    pub open spec fn due(self, now_ms: u64, min_interval_ms: u64) -> bool {
        self.colorloop && elapsed_ms(self.last_animation_update, now_ms) >= min_interval_ms
    }

    /// The startup state: lamp on, static green, colorloop off, phase 0.
    pub fn new(now_ms: u64) -> (s: State)
        ensures
            s.led_color == (Rgb { r: 0, g: 255, b: 0 }),
            s.led_on,
            !s.colorloop,
            s.colorloop_progress == 0,
            s.last_animation_update == now_ms,
            s.last_loop_color == spec_hue_rgb(0),
            s.wf(),
    {
        State {
            led_color: Rgb { r: 0, g: 255, b: 0 },
            led_on: true,
            colorloop: false,
            colorloop_progress: 0,
            last_animation_update: now_ms,
            last_loop_color: Rgb { r: 255, g: 0, b: 0 },
        }
    }

    /// The state after one on/off toggle: only `led_on` flips.
    pub open spec fn spec_toggled(self) -> State {
        State { led_on: !self.led_on, ..self }
    }

    /// Sets the lamp on or off outright.
    pub fn set_on(&mut self, on: bool)
        ensures
            *final(self) == (State { led_on: on, ..*old(self) }),
    {
        self.led_on = on;
    }

    /// Flips the lamp on or off.
    pub fn toggle_led(&mut self)
        ensures
            *final(self) == old(self).spec_toggled(),
    {
        self.led_on = !self.led_on;
    }

    /// Overwrites the static target color.
    pub fn set_color(&mut self, color: Rgb)
        ensures
            *final(self) == (State { led_color: color, ..*old(self) }),
    {
        self.led_color = color;
    }

    /// Flips the colorloop animation on or off.
    pub fn toggle_colorloop(&mut self)
        ensures
            *final(self) == (State { colorloop: !old(self).colorloop, ..*old(self) }),
    {
        self.colorloop = !self.colorloop;
    }

    /// Advances the animation by exactly one degree of hue if the colorloop
    /// is active and at least `min_interval_ms` has elapsed since the last
    /// advance; otherwise changes nothing. Never advances by more than one
    /// degree per call, and skipped calls accumulate no backlog: the rate
    /// limit compares against the time of the last advance alone.
    pub fn advance_phase_if_due(&mut self, now_ms: u64, min_interval_ms: u64) -> (advanced: Option<
        Rgb,
    >)
        requires
            old(self).wf(),
        ensures
            final(self).wf(),
            old(self).due(now_ms, min_interval_ms) ==> {
                &&& advanced == Some(spec_hue_rgb(old(self).colorloop_progress as int))
                &&& final(self).colorloop_progress == next_phase(old(self).colorloop_progress)
                &&& final(self).last_animation_update == now_ms
                &&& final(self).last_loop_color == spec_hue_rgb(
                    old(self).colorloop_progress as int,
                )
            },
            !old(self).due(now_ms, min_interval_ms) ==> {
                &&& advanced is None
                &&& *final(self) == *old(self)
            },
            final(self).led_color == old(self).led_color,
            final(self).led_on == old(self).led_on,
            final(self).colorloop == old(self).colorloop,
            elapsed_ms(old(self).last_animation_update, now_ms) < min_interval_ms ==> *final(self)
                == *old(self),
            final(self).colorloop_progress == old(self).colorloop_progress
                || final(self).colorloop_progress == next_phase(old(self).colorloop_progress),
    {
        if !self.colorloop {
            return None;
        }
        let elapsed: u64 = if now_ms >= self.last_animation_update {
            now_ms - self.last_animation_update
        } else {
            0
        };
        if elapsed < min_interval_ms {
            return None;
        }
        let color = hue_to_rgb(self.colorloop_progress);
        self.last_animation_update = now_ms;
        self.last_loop_color = color;
        self.colorloop_progress = self.colorloop_progress + 1;
        if self.colorloop_progress >= 360 {
            self.colorloop_progress = 0;
        }
        Some(color)
    }

    /// The snapshot as a pure function of the state.
    pub open spec fn spec_snapshot(self) -> Snapshot {
        Snapshot {
            is_on: self.led_on,
            colorloop_active: self.colorloop,
            color: self.led_color,
            hue_phase: self.colorloop_progress,
            loop_color: self.last_loop_color,
        }
    }

    /// A consistent read of everything output resolution needs.
    pub fn snapshot_resolved_intent(&self) -> (snap: Snapshot)
        ensures
            snap == self.spec_snapshot(),
    {
        Snapshot {
            is_on: self.led_on,
            colorloop_active: self.colorloop,
            color: self.led_color,
            hue_phase: self.colorloop_progress,
            loop_color: self.last_loop_color,
        }
    }
}

/// The state after `n` on/off toggles.
pub open spec fn iter_toggled(s: State, n: nat) -> State
    decreases n,
{
    if n == 0 {
        s
    } else {
        iter_toggled(s, (n - 1) as nat).spec_toggled()
    }
}

/// Law: after any sequence of `n` toggles, the lamp is on exactly when the
/// initial value differs from the parity of `n`: an odd count flips it, an
/// even count restores it; no other field moves.
pub proof fn lemma_toggle_parity(s: State, n: nat)
    ensures
        iter_toggled(s, n).led_on == (s.led_on != (n % 2 == 1)),
        iter_toggled(s, n) == (State { led_on: iter_toggled(s, n).led_on, ..s }),
    decreases n,
{
    if n > 0 {
        lemma_toggle_parity(s, (n - 1) as nat);
    }
}

/// The phase after `n` single-degree advances from `p`.
pub open spec fn iter_next_phase(p: u16, n: nat) -> u16
    decreases n,
{
    if n == 0 {
        p
    } else {
        next_phase(iter_next_phase(p, (n - 1) as nat))
    }
}

/// Helper for the wrap law: within one trip around the wheel the phase is
/// the start plus the number of advances, reduced once past 360.
pub proof fn lemma_phase_linear(p: u16, n: nat)
    requires
        p < 360,
        n <= 360,
    ensures
        iter_next_phase(p, n) as int == if p + n < 360 {
            p + n
        } else {
            p + n - 360
        },
    decreases n,
{
    if n > 0 {
        lemma_phase_linear(p, (n - 1) as nat);
    }
}

/// Law: 360 consecutive advances carry the phase exactly once around the
/// hue wheel, back to where it started.
pub proof fn lemma_phase_full_turn(p: u16)
    requires
        p < 360,
    ensures
        iter_next_phase(p, 360) == p,
{
    lemma_phase_linear(p, 360);
}

/// The resolved output color of a snapshot: black while off, the animation
/// color while the colorloop runs, the static color otherwise, and never a
/// blend of the two sources.
pub open spec fn spec_resolve(snap: Snapshot) -> Rgb {
    if !snap.is_on {
        Rgb { r: 0, g: 0, b: 0 }
    } else if snap.colorloop_active {
        snap.loop_color
    } else {
        snap.color
    }
}

/// Resolves a snapshot into the color to write to the hardware. While the
/// lamp is off the result is black whatever the other fields hold.
pub fn resolve_output(snap: &Snapshot) -> (out: Rgb)
    ensures
        out == spec_resolve(*snap),
        !snap.is_on ==> out == (Rgb { r: 0, g: 0, b: 0 }),
{
    if !snap.is_on {
        Rgb { r: 0, g: 0, b: 0 }
    } else if snap.colorloop_active {
        snap.loop_color
    } else {
        snap.color
    }
}

/// One iteration of the update loop's decision core: advance the animation
/// if the lamp is on and an advance is due, then resolve the output color
/// from a consistent snapshot. The caller writes `out` to the hardware.
pub fn update_step(state: &mut State, now_ms: u64) -> (out: Rgb)
    requires
        old(state).wf(),
    ensures
        final(state).wf(),
        final(state).led_color == old(state).led_color,
        final(state).led_on == old(state).led_on,
        final(state).colorloop == old(state).colorloop,
        old(state).led_on && old(state).due(now_ms, MIN_ADVANCE_INTERVAL_MS) ==> {
            &&& final(state).colorloop_progress == next_phase(old(state).colorloop_progress)
            &&& final(state).last_animation_update == now_ms
            &&& final(state).last_loop_color == spec_hue_rgb(
                old(state).colorloop_progress as int,
            )
            &&& out == spec_hue_rgb(old(state).colorloop_progress as int)
        },
        !(old(state).led_on && old(state).due(now_ms, MIN_ADVANCE_INTERVAL_MS)) ==> *final(state)
            == *old(state),
        !old(state).led_on ==> out == (Rgb { r: 0, g: 0, b: 0 }),
        old(state).led_on && !old(state).colorloop ==> out == old(state).led_color,
        old(state).led_on && old(state).colorloop && !old(state).due(
            now_ms,
            MIN_ADVANCE_INTERVAL_MS,
        ) ==> out == old(state).last_loop_color,
        out == spec_resolve(final(state).spec_snapshot()),
{
    if state.led_on {
        let _ = state.advance_phase_if_due(now_ms, MIN_ADVANCE_INTERVAL_MS);
    }
    let snap = state.snapshot_resolved_intent();
    resolve_output(&snap)
}

} // verus!
