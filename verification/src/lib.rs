//! Deterministic per-tick character locomotion over fixed-point arithmetic.
//!
//! A tick turns what a character wants (a direction to walk in, a jump) and
//! what the world reports (on the ground or in the air, the displacement
//! actually made) into one net force, integrates that force into a velocity
//! and a displacement to ask for, and derives what is shown: the direction
//! the visual faces and the clip it plays. Resolving the displacement
//! against obstacles is somebody else's work; its report comes back in with
//! the next tick.
//!
//! - [`fixed`] and [`vector`]: the numbers. Every quantity is a count of
//!   millionths in 64 bits; results are rounded toward zero and clamped.
//! - [`components`] and [`body`]: the state of a body and its model over
//!   mathematical integers, in which every contract is written.
//! - [`movement`]: the stages that gather forces, integrate and reset.
//! - [`presentation`]: the stages that turn the visual and choose its clip.
//! - [`schedule`]: which stage waits for which, and the tick as a whole.
//! - [`animation_link`]: how a body finds the entity that shows it.
//! - [`interaction`]: who takes part in a contact.
//! - [`spawning`] and [`transform`]: requests to bring objects into the world.
//! - [`theorems`]: what holds of the stages for every input.

pub mod animation_link;
pub mod body;
pub mod components;
pub mod fixed;
pub mod interaction;
pub mod movement;
pub mod presentation;
pub mod schedule;
pub mod spawning;
pub mod theorems;
pub mod transform;
pub mod vector;
