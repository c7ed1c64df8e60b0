//! The rules of the animation: the state that the events of a windowing
//! host act on, what each event makes of it, and what holds of every state
//! that the events can lead to.
//!
//! Instants are counted in nanoseconds on a clock that never runs
//! backwards.

use crate::subdivision::{blend_total, is_refinement};
use vstd::prelude::*;

verus! {

/// Highest step of the animation; the step after it is step 0 again.
pub const MAX_STEPS: u32 = 7;

/// Least time between two steps of the animation, in milliseconds.
pub const ANIMATION_SPEED_MS: u128 = 500;

/// Nanoseconds in a millisecond.
pub const NANOS_PER_MILLI: u128 = 1_000_000;

/// The animation starts only with more control points than this.
pub const START_THRESHOLD: usize = 2;

/// A button of the pointing device.
#[derive(Clone, Copy, Debug, PartialEq, Eq, Structural)]
pub enum MouseButton {
    /// The button that places a point.
    Left,
    /// Any other button.
    Other,
}

/// A key, as far as the controller tells keys apart.
#[derive(Clone, Copy, Debug, PartialEq, Eq, Structural)]
pub enum Key {
    /// Leave the program.
    Escape,
    /// Begin the animation.
    Return,
    /// Forget all points and go back to placing them.
    Backspace,
    /// Any other key.
    Other,
}

/// What the host draws, besides a marker at each control point.
#[derive(Clone, Copy, Debug, PartialEq, Eq, Structural)]
pub struct Scene {
    /// Draw the line strip through the displayed points.
    pub curve: bool,
    /// Draw the instructions.
    pub hint: bool,
}

/// The controller's state as the rules of the animation speak of it.
#[verifier::ext_equal]
pub struct AppState<P> {
    /// Where the pointer was last seen.
    pub mouse_pos: P,
    /// The points that the user placed, in the order of placing.
    pub control_points: Seq<P>,
    /// The curve on display.
    pub displayed_points: Seq<P>,
    /// The animation runs; while it does not, points are being placed.
    pub is_animating: bool,
    /// Number of corner cuttings that separate the displayed points from the
    /// control points.
    pub animation_step: nat,
    /// Instant at which the controller was made or reset, the animation
    /// begun or its last step taken, whichever came last.
    pub last_update: nat,
    /// The user asked for an animation of no points at all and has placed
    /// none since.
    pub hint: bool,
}

/// The step that follows `step`.
pub open spec fn next_step(step: nat) -> nat {
    if step + 1 > MAX_STEPS {
        0
    } else {
        step + 1
    }
}

/// Least time between two steps of the animation, in nanoseconds.
pub open spec fn tick_interval() -> nat {
    (ANIMATION_SPEED_MS * NANOS_PER_MILLI) as nat
}

/// At `now` the animation is running and its next step is due.
pub open spec fn tick_due<P>(s: AppState<P>, now: nat) -> bool {
    s.is_animating && now - s.last_update >= tick_interval()
}

/// What every state of a controller satisfies.
pub open spec fn valid<P, F: Fn(P, u8, P, u8) -> P>(blend: F, s: AppState<P>) -> bool {
    &&& blend_total(blend)
    &&& s.animation_step <= MAX_STEPS
    &&& s.is_animating ==> {
        &&& s.control_points.len() > START_THRESHOLD
        &&& is_refinement(blend, s.control_points, s.animation_step, s.displayed_points)
    }
    &&& !s.is_animating ==> s.animation_step == 0 && s.displayed_points.len() == 0
}

/// The state of a controller created at `now` with the pointer at
/// `mouse_pos`.
pub open spec fn initial<P>(mouse_pos: P, now: nat) -> AppState<P> {
    AppState {
        mouse_pos,
        control_points: Seq::empty(),
        displayed_points: Seq::empty(),
        is_animating: false,
        animation_step: 0,
        last_update: now,
        hint: false,
    }
}

/// The state after the pointer has moved to `position`.
pub open spec fn after_mouse_move<P>(s: AppState<P>, position: P) -> AppState<P> {
    AppState { mouse_pos: position, ..s }
}

/// The state after `button` went down: the left button places a control point
/// where the pointer is, unless the animation is running.
pub open spec fn after_mouse_button_down<P>(s: AppState<P>, button: MouseButton) -> AppState<P> {
    if button == MouseButton::Left && !s.is_animating {
        AppState { control_points: s.control_points.push(s.mouse_pos), hint: false, ..s }
    } else {
        s
    }
}

/// The state after the command to begin the animation, given at `now`.
///
/// With more than `START_THRESHOLD` control points the animation starts, or
/// starts over, at step 0, showing the control points themselves. With
/// fewer the command changes nothing, except that with no point at all it
/// asks for the instructions.
pub open spec fn after_begin<P>(s: AppState<P>, now: nat) -> AppState<P> {
    if s.control_points.len() > START_THRESHOLD {
        AppState {
            is_animating: true,
            animation_step: 0,
            last_update: now,
            displayed_points: s.control_points,
            ..s
        }
    } else if s.control_points.len() == 0 {
        AppState { hint: true, ..s }
    } else {
        s
    }
}

/// The state after a reset at `now`: that of a new controller, with the
/// pointer where it was.
pub open spec fn after_reset<P>(s: AppState<P>, now: nat) -> AppState<P> {
    initial(s.mouse_pos, now)
}

/// The state after `key` went down at `now`.
pub open spec fn after_key_down<P>(s: AppState<P>, key: Option<Key>, now: nat) -> AppState<P> {
    match key {
        Some(Key::Return) => after_begin(s, now),
        Some(Key::Backspace) => after_reset(s, now),
        _ => s,
    }
}

/// `after` follows from `before` by one step of the animation, taken at
/// `now`: the step number advances and wraps, the displayed points are
/// those of the new step, derived from the control points and not from what
/// was on display, and the clock is read off anew. Nothing else changes.
pub open spec fn is_tick<P, F: Fn(P, u8, P, u8) -> P>(
    blend: F,
    before: AppState<P>,
    now: nat,
    after: AppState<P>,
) -> bool {
    &&& after.animation_step == next_step(before.animation_step)
    &&& after.last_update == now
    &&& is_refinement(
        blend,
        before.control_points,
        after.animation_step,
        after.displayed_points,
    )
    &&& after.is_animating == before.is_animating
    &&& after.control_points == before.control_points
    &&& after.mouse_pos == before.mouse_pos
    &&& after.hint == before.hint
}

/// What is drawn in state `s`: the curve while the animation runs and has a
/// segment to show, the instructions while they are asked for and no point
/// is placed.
pub open spec fn scene_of<P>(s: AppState<P>) -> Scene {
    Scene {
        curve: s.is_animating && s.displayed_points.len() > 1,
        hint: s.control_points.len() == 0 && s.hint,
    }
}

/// The step reached from `step` by `ticks` steps of the animation.
pub open spec fn step_after(step: nat, ticks: nat) -> nat
    decreases ticks,
{
    if ticks == 0 {
        step
    } else {
        next_step(step_after(step, (ticks - 1) as nat))
    }
}

/// The steps wrap around: an animation that starts at step 0 visits the
/// steps 0, 1, ..., `MAX_STEPS`, 0, 1, ... in turn.
pub proof fn lemma_steps_from_zero(ticks: nat)
    ensures
        step_after(0, ticks) == ticks % (MAX_STEPS + 1) as nat,
    decreases ticks,
{
    if ticks > 0 {
        let earlier = (ticks - 1) as nat;
        lemma_steps_from_zero(earlier);
        assert(ticks % 8 == if earlier % 8 == 7 {
            0
        } else {
            earlier % 8 + 1
        });
    }
}

/// From any step of the animation, `MAX_STEPS + 1` further steps lead back
/// to it.
pub proof fn lemma_step_cycle(step: nat)
    requires
        step <= MAX_STEPS,
    ensures
        step_after(step, (MAX_STEPS + 1) as nat) == step,
{
    reveal_with_fuel(step_after, 9);
}

/// The command to begin starts the animation with more than
/// `START_THRESHOLD` control points and with no fewer: at the threshold and
/// below, a controller that was placing points goes on placing them; above
/// it, the animation runs, at step 0, and shows the control points
/// themselves.
pub proof fn lemma_begin_threshold<P, F: Fn(P, u8, P, u8) -> P>(blend: F, s: AppState<P>, now: nat)
    requires
        valid(blend, s),
    ensures
        valid(blend, after_begin(s, now)),
        s.control_points.len() <= START_THRESHOLD ==> !after_begin(s, now).is_animating,
        s.control_points.len() > START_THRESHOLD ==> {
            &&& after_begin(s, now).is_animating
            &&& after_begin(s, now).animation_step == 0
            &&& after_begin(s, now).displayed_points == s.control_points
        },
        after_begin(s, now).control_points == s.control_points,
{
}

/// The timing gate: once a step was taken at `then`, a call to draw at
/// `now` takes the next one if and only if `now` lies `ANIMATION_SPEED_MS`
/// or more after `then`.
pub proof fn lemma_tick_gate<P, F: Fn(P, u8, P, u8) -> P>(
    blend: F,
    before: AppState<P>,
    then: nat,
    after: AppState<P>,
    now: nat,
)
    requires
        tick_due(before, then),
        is_tick(blend, before, then, after),
    ensures
        tick_due(after, now) <==> now - then >= tick_interval(),
        tick_interval() == 500_000_000,
        after.animation_step == next_step(before.animation_step),
{
}

/// A reset leads to the state of a new controller, whatever went before:
/// no control points, nothing on display, not animating, step 0. The
/// pointer stays where it was.
pub proof fn lemma_reset_restores<P, F: Fn(P, u8, P, u8) -> P>(blend: F, s: AppState<P>, now: nat)
    requires
        blend_total(blend),
    ensures
        valid(blend, after_reset(s, now)),
        after_reset(s, now).control_points.len() == 0,
        after_reset(s, now).displayed_points.len() == 0,
        !after_reset(s, now).is_animating,
        after_reset(s, now).animation_step == 0,
        after_reset(s, now).mouse_pos == s.mouse_pos,
{
}

/// The control points are never reordered, replaced or thinned out: an
/// event leaves them as they are, or places one more point at their end
/// (only a press of the left button can, and only while the animation does
/// not run), or forgets them all (only a reset does).
pub proof fn lemma_control_points_grow_or_clear<P>(
    s: AppState<P>,
    position: P,
    button: MouseButton,
    key: Option<Key>,
    now: nat,
)
    ensures
        after_mouse_move(s, position).control_points == s.control_points,
        after_mouse_button_down(s, button).control_points == if button == MouseButton::Left
            && !s.is_animating {
            s.control_points.push(s.mouse_pos)
        } else {
            s.control_points
        },
        after_key_down(s, key, now).control_points == if key == Some(Key::Backspace) {
            Seq::<P>::empty()
        } else {
            s.control_points
        },
{
}

/// No handler but the one that draws leads out of the valid states: what is
/// on display while the animation runs stays the control points after as
/// many corner cuttings as the step says.
pub proof fn lemma_handlers_keep_valid<P, F: Fn(P, u8, P, u8) -> P>(
    blend: F,
    s: AppState<P>,
    position: P,
    button: MouseButton,
    key: Option<Key>,
    now: nat,
)
    requires
        valid(blend, s),
    ensures
        valid(blend, after_mouse_move(s, position)),
        valid(blend, after_mouse_button_down(s, button)),
        valid(blend, after_key_down(s, key, now)),
{
}

/// A step of the animation leads from a valid state to a valid state, with
/// the same control points and the animation still running.
pub proof fn lemma_tick_keeps_valid<P, F: Fn(P, u8, P, u8) -> P>(
    blend: F,
    before: AppState<P>,
    now: nat,
    after: AppState<P>,
)
    requires
        valid(blend, before),
        tick_due(before, now),
        is_tick(blend, before, now, after),
    ensures
        valid(blend, after),
        after.is_animating,
        after.control_points == before.control_points,
{
}

} // verus!
