//! Velocities, and the integrator that moves every entity by its velocity.

use vstd::prelude::*;
use crate::constants::GROUND_LEVEL;
use crate::geometry::{scaled, storable, Placement, Point, Transform, Vec2};

verus! {

/// The velocity of a moving entity.
#[derive(Clone, Copy, Debug, PartialEq, Eq)]
pub struct Velocity {
    /// Speed along each axis, in thousandths of a unit per second.
    pub speed: Vec2,
}

impl View for Velocity {
    type V = Point;

    open spec fn view(&self) -> Point {
        self.speed@
    }
}

/// The height `y`, or the ground where `y` lies below it.
pub open spec fn above_ground(y: int) -> int {
    if y < GROUND_LEVEL {
        GROUND_LEVEL as int
    } else {
        y
    }
}

/// The placement reached from `from` after `delta` milliseconds at `speed`:
/// the position advances by speed times time on both axes and is then lifted
/// to the ground if it fell below.
pub open spec fn integrate(from: Placement, speed: Point, delta: int) -> Placement {
    Placement {
        translation: Point {
            x: from.translation.x + speed.x * delta,
            y: above_ground(from.translation.y + speed.y * delta),
        },
        ..from
    }
}

/// Tells whether [`apply_velocity`] can run: whether the position it would
/// store can be stored.
pub fn can_apply_velocity(velocity: &Velocity, transform: &Transform, delta: u32) -> (ok: bool)
    ensures
        ok == integrate(transform@, velocity@, delta as int).representable(),
{
    let x: i128 = transform.translation.x as i128 + scaled(velocity.speed.x, delta);
    let y: i128 = transform.translation.y as i128 + scaled(velocity.speed.y, delta);
    storable(x) && (y < GROUND_LEVEL as i128 || storable(y))
}

/// Moves one entity by its velocity over a frame of `delta` milliseconds.
pub fn apply_velocity(velocity: &Velocity, transform: &mut Transform, delta: u32)
    requires
        integrate(old(transform)@, velocity@, delta as int).representable(),
    ensures
        final(transform)@ == integrate(old(transform)@, velocity@, delta as int),
{
    let x: i128 = transform.translation.x as i128 + scaled(velocity.speed.x, delta);
    let y: i128 = transform.translation.y as i128 + scaled(velocity.speed.y, delta);
    transform.translation.x = x as i64;
    transform.translation.y = if y < GROUND_LEVEL as i128 {
        GROUND_LEVEL
    } else {
        y as i64
    };
}

/// Integration is exact. Over a frame of any length the horizontal position
/// changes by speed times time, and so does the height wherever that does
/// not take the entity below the ground; layer, angle and mirroring stay.
pub proof fn law_integration_is_exact(from: Placement, speed: Point, delta: nat)
    ensures
        ({
            let to = integrate(from, speed, delta as int);
            let height = from.translation.y + speed.y * delta;
            &&& to.translation.x == from.translation.x + speed.x * delta
            &&& height >= GROUND_LEVEL ==> to.translation.y == height
            &&& to.layer == from.layer
            &&& to.rotation == from.rotation
            &&& to.mirrored == from.mirrored
        }),
{
}

/// The integrator leaves no entity below the ground, wherever it was and
/// however fast it falls; an entity that would end below is put on the
/// ground.
pub proof fn law_integrator_stops_at_ground(from: Placement, speed: Point, delta: int)
    ensures
        ({
            let to = integrate(from, speed, delta);
            &&& to.translation.y >= GROUND_LEVEL
            &&& from.translation.y + speed.y * delta < GROUND_LEVEL ==> to.translation.y
                == GROUND_LEVEL
        }),
{
}

} // verus!
