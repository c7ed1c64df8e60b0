//! The animation controller: it holds the state that the event handlers
//! of a windowing host act on and changes it by the rules of the animation.
//!
//! The host samples its clock and hands every handler that needs it the
//! current instant. The handlers answer with what the host has to do: leave
//! its loop, or draw a scene.

use crate::animation::{
    after_begin, after_key_down, after_mouse_button_down, after_mouse_move, after_reset, initial,
    is_tick, scene_of, tick_due, valid, AppState, Key, MouseButton, Scene, ANIMATION_SPEED_MS,
    MAX_STEPS, NANOS_PER_MILLI, START_THRESHOLD,
};
use crate::subdivision::{blend_total, refine};
use vstd::prelude::*;

verus! {

/// The animation proper: what is on display, and since when. Its parts
/// change together, so the controller replaces it as a whole.
struct Playback<P> {
    is_animating: bool,
    animation_step: u32,
    last_update: u128,
    displayed_points: Vec<P>,
}

/// The controller. It owns the control points, the displayed curve and the
/// blend by which the curve is derived.
#[verifier::reject_recursive_types(P)]
pub struct ChaikinApp<P: Copy, F: Fn(P, u8, P, u8) -> P> {
    blend: F,
    mouse_pos: P,
    control_points: Vec<P>,
    playback: Playback<P>,
    hint: bool,
}

impl<P: Copy, F: Fn(P, u8, P, u8) -> P> View for ChaikinApp<P, F> {
    type V = AppState<P>;

    closed spec fn view(&self) -> AppState<P> {
        AppState {
            mouse_pos: self.mouse_pos,
            control_points: self.control_points@,
            displayed_points: self.playback.displayed_points@,
            is_animating: self.playback.is_animating,
            animation_step: self.playback.animation_step as nat,
            last_update: self.playback.last_update as nat,
            hint: self.hint,
        }
    }
}

impl<P: Copy, F: Fn(P, u8, P, u8) -> P> ChaikinApp<P, F> {
    /// The blend that this controller derives its curve by.
    pub closed spec fn blend(&self) -> F {
        self.blend
    }

    #[verifier::type_invariant]
    closed spec fn well_formed(&self) -> bool {
        valid(self.blend, self@)
    }

    /// A controller with no points, not animating, the pointer at
    /// `mouse_pos`.
    pub fn new(mouse_pos: P, now: u128, blend: F) -> (app: Self)
        requires
            blend_total(blend),
        ensures
            app.blend() == blend,
            app@ == initial(mouse_pos, now as nat),
            valid(app.blend(), app@),
    {
        ChaikinApp {
            blend,
            mouse_pos,
            control_points: Vec::new(),
            playback: Playback {
                is_animating: false,
                animation_step: 0,
                last_update: now,
                displayed_points: Vec::new(),
            },
            hint: false,
        }
    }

    /// Records where the pointer is.
    pub fn on_mouse_move(&mut self, position: P)
        ensures
            final(self).blend() == old(self).blend(),
            final(self)@ == after_mouse_move(old(self)@, position),
            valid(final(self).blend(), final(self)@),
    {
        proof {
            use_type_invariant(&*self);
        }
        self.mouse_pos = position;
    }

    /// Handles a button of the pointing device going down: the left button
    /// places a control point where the pointer is, unless the animation is
    /// running.
    pub fn on_mouse_button_down(&mut self, button: MouseButton)
        ensures
            final(self).blend() == old(self).blend(),
            final(self)@ == after_mouse_button_down(old(self)@, button),
            valid(final(self).blend(), final(self)@),
    {
        proof {
            use_type_invariant(&*self);
        }
        match button {
            MouseButton::Left => {
                if !self.playback.is_animating {
                    // The points leave the controller while their vector
                    // grows and come back as one value.
                    let mut control_points: Vec<P> = Vec::new();
                    std::mem::swap(&mut self.control_points, &mut control_points);
                    control_points.push(self.mouse_pos);
                    self.control_points = control_points;
                    self.hint = false;
                }
            },
            MouseButton::Other => {},
        }
    }

    /// Begins the animation at `now`, or begins it anew, if there are more
    /// than `START_THRESHOLD` control points.
    pub fn begin(&mut self, now: u128)
        ensures
            final(self).blend() == old(self).blend(),
            final(self)@ == after_begin(old(self)@, now as nat),
            valid(final(self).blend(), final(self)@),
    {
        proof {
            use_type_invariant(&*self);
        }
        if self.control_points.len() > START_THRESHOLD {
            let temp_points: Vec<P> = refine(self.control_points.as_slice(), 0, &self.blend);
            self.playback = Playback {
                is_animating: true,
                animation_step: 0,
                last_update: now,
                displayed_points: temp_points,
            };
        } else if self.control_points.len() == 0 {
            self.hint = true;
        }
    }

    /// Forgets the control points and the curve and goes back to placing
    /// points. Only the pointer stays where it was.
    pub fn reset(&mut self, now: u128)
        ensures
            final(self).blend() == old(self).blend(),
            final(self)@ == after_reset(old(self)@, now as nat),
            valid(final(self).blend(), final(self)@),
    {
        proof {
            use_type_invariant(&*self);
        }
        self.playback = Playback {
            is_animating: false,
            animation_step: 0,
            last_update: now,
            displayed_points: Vec::new(),
        };
        self.control_points = Vec::new();
        self.hint = false;
    }

    /// Handles a key going down at `now`. The result tells the host to
    /// leave its loop.
    pub fn on_key_down(&mut self, virtual_keycode: Option<Key>, now: u128) -> (quit: bool)
        ensures
            quit == (virtual_keycode == Some(Key::Escape)),
            final(self).blend() == old(self).blend(),
            final(self)@ == after_key_down(old(self)@, virtual_keycode, now as nat),
            valid(final(self).blend(), final(self)@),
    {
        proof {
            use_type_invariant(&*self);
        }
        match virtual_keycode {
            Some(Key::Escape) => true,
            Some(Key::Backspace) => {
                self.reset(now);
                false
            },
            Some(Key::Return) => {
                self.begin(now);
                false
            },
            _ => false,
        }
    }

    /// Handles the host's call to draw at `now`. While the animation runs
    /// and `ANIMATION_SPEED_MS` have passed since its last step, it takes
    /// the next step first. The result tells the host what to draw.
    pub fn on_draw(&mut self, now: u128) -> (scene: Scene)
        ensures
            final(self).blend() == old(self).blend(),
            tick_due(old(self)@, now as nat) ==> is_tick(
                old(self).blend(),
                old(self)@,
                now as nat,
                final(self)@,
            ),
            !tick_due(old(self)@, now as nat) ==> final(self)@ == old(self)@,
            valid(final(self).blend(), final(self)@),
            scene == scene_of(final(self)@),
    {
        proof {
            use_type_invariant(&*self);
        }
        if self.playback.is_animating {
            let last_update: u128 = self.playback.last_update;
            if now >= last_update && now - last_update >= ANIMATION_SPEED_MS * NANOS_PER_MILLI {
                let mut animation_step: u32 = self.playback.animation_step + 1;
                if animation_step > MAX_STEPS {
                    animation_step = 0;
                }
                let temp_points: Vec<P> = refine(
                    self.control_points.as_slice(),
                    animation_step,
                    &self.blend,
                );
                self.playback = Playback {
                    is_animating: true,
                    animation_step,
                    last_update: now,
                    displayed_points: temp_points,
                };
            }
        }
        Scene {
            curve: self.playback.is_animating && self.playback.displayed_points.len() > 1,
            hint: self.control_points.len() == 0 && self.hint,
        }
    }

    /// Where the pointer was last seen.
    pub fn mouse_pos(&self) -> (position: P)
        ensures
            position == self@.mouse_pos,
    {
        self.mouse_pos
    }

    /// The points that the user placed, in the order of placing.
    pub fn control_points(&self) -> (points: &Vec<P>)
        ensures
            points@ == self@.control_points,
    {
        &self.control_points
    }

    /// The curve on display: the control points after as many corner
    /// cuttings as the animation has taken steps.
    pub fn displayed_points(&self) -> (points: &Vec<P>)
        ensures
            points@ == self@.displayed_points,
            valid(self.blend(), self@),
    {
        proof {
            use_type_invariant(self);
        }
        &self.playback.displayed_points
    }

    /// Whether the animation runs.
    pub fn is_animating(&self) -> (animating: bool)
        ensures
            animating == self@.is_animating,
    {
        self.playback.is_animating
    }

    /// The step that the animation is at, never above `MAX_STEPS`.
    pub fn animation_step(&self) -> (step: u32)
        ensures
            step == self@.animation_step,
            step <= MAX_STEPS,
    {
        proof {
            use_type_invariant(self);
        }
        self.playback.animation_step
    }

    /// Instant at which the controller was made or reset, the animation
    /// begun or its last step taken, whichever came last.
    pub fn last_update(&self) -> (instant: u128)
        ensures
            instant == self@.last_update,
    {
        self.playback.last_update
    }

    /// Whether the user asked for an animation of no points at all and has
    /// placed none since.
    pub fn hint(&self) -> (asked: bool)
        ensures
            asked == self@.hint,
    {
        self.hint
    }
}

} // verus!
