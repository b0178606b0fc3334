//! Game rules of a small side-scrolling platformer, in fixed-point arithmetic.
//!
//! A scientist walks and jumps on a single ground plane, throws spinning
//! bottles on a cooldown, and an alien patrols the window on a sine wave.
//! Every rule is a function with a proved contract. The keys are read off
//! the engine's keyboard state; the clock, the sine of the alien's wave and
//! all drawing belong to the caller, who hands in whole numbers.
//!
//! Units: time in milliseconds, lengths in millionths of a world unit,
//! speeds in thousandths of a world unit per second (which is millionths per
//! millisecond), angles in thousandths of a radian.

pub mod background;
pub mod constants;
pub mod enemy;
pub mod geometry;
pub mod keyboard;
pub mod movement;
pub mod player;
pub mod projectile;
pub mod world;
