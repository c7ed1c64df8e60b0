//! Corner-cutting curve refinement and the animation controller that
//! replays it step by step.
//!
//! The crate is generic over the point type: the caller supplies the
//! weighted average of two points, and everything else (which points are
//! averaged, in which order they are emitted, how the animation advances)
//! is decided and verified here.
//!
//! - [`subdivision`]: one corner-cutting pass, its repetition, and what
//!   holds of both.
//! - [`animation`]: the rules of the animation, as functions from state and
//!   event to state.
//! - [`controller`]: the state itself and the handlers that a windowing
//!   host calls.

pub mod animation;
pub mod controller;
pub mod subdivision;
