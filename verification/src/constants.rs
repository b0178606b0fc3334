//! The fixed configuration table shared by every rule.

use vstd::prelude::*;

verus! {

/// Millionths of a world unit in one world unit.
pub const UNIT: i64 = 1_000_000;

/// Width of the window, in millionths of a unit.
pub const WINDOW_WIDTH: i64 = 800_000_000;

/// Height of the window, in millionths of a unit.
pub const WINDOW_HEIGHT: i64 = 600_000_000;

/// Width of the pixel-perfect camera target, in pixels.
pub const VIRTUAL_WIDTH: u32 = 320;

/// Height of the pixel-perfect camera target, in pixels.
pub const VIRTUAL_HEIGHT: u32 = 240;

/// Vertical coordinate of the ground, in millionths of a unit.
pub const GROUND_LEVEL: i64 = -90_000_000;

/// Walking speed of the player, in thousandths of a unit per second.
pub const PLAYER_SPEED: i64 = 100_000;

/// Upward speed given by a jump, in thousandths of a unit per second.
pub const JUMP_FORCE: i64 = 300_000;

/// Vertical acceleration in units per second squared: the change of a speed,
/// in thousandths of a unit per second, over one millisecond.
pub const GRAVITY: i64 = -800;

/// Edge of the player's square sprite, in millionths of a unit.
pub const SPRITE_SIZE: i64 = 32_000_000;

/// Speed of a thrown bottle, in thousandths of a unit per second.
pub const CHEMICAL_PROJECTILE_SPEED: i64 = PLAYER_SPEED * 2;

/// Edge of a bottle's square sprite, in millionths of a unit.
pub const CHEMICAL_PROJECTILE_SIZE: i64 = 16_000_000;

/// Least time between two throws, in milliseconds.
pub const CHEMICAL_PROJECTILE_COOLDOWN: i64 = 600;

/// The time of the last throw of a player that has thrown none, in
/// milliseconds since the start: one cooldown before it, so that the first
/// bottle can be thrown at time zero.
pub const NO_SHOT_YET: i64 = -CHEMICAL_PROJECTILE_COOLDOWN;

/// Spin of a bottle in radians per second: thousandths of a radian per
/// millisecond.
pub const CHEMICAL_PROJECTILE_ROTATION_SPEED: i64 = 2;

/// Horizontal speed of an enemy, in thousandths of a unit per second.
pub const ENEMY_SPEED: i64 = 60_000;

/// Height of an enemy's sprite, in millionths of a unit; its width is half of it.
pub const ENEMY_SIZE: i64 = 32_000_000;

/// Height of the enemy's wave above and below its baseline, in whole units.
pub const WAVE_AMPLITUDE: i64 = 50;

/// Angular frequency of the enemy's wave in radians per second: thousandths
/// of a radian per millisecond.
pub const WAVE_FREQUENCY: i64 = 2;

/// The value that stands for a sine of one.
pub const SINE_ONE: i32 = 1_000_000;

} // verus!
