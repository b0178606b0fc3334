//! The enemy: a patrol from one side of the window to the other, bobbing on
//! a sine wave.
//!
//! The library works in whole numbers and takes no sine itself. For each
//! frame [`Enemy::next_wave_phase`] gives the angle, and the caller hands
//! the sine of that angle, in millionths, to [`enemy_movement`].

use vstd::prelude::*;
use crate::constants::{
    ENEMY_SIZE, ENEMY_SPEED, SINE_ONE, UNIT, WAVE_AMPLITUDE, WAVE_FREQUENCY, WINDOW_WIDTH,
};
use crate::geometry::{
    fits, scaled, storable, Image, Placement, Point, Sprite, Transform, Vec2,
};
use crate::movement::{apply_velocity, can_apply_velocity, integrate, Velocity};

verus! {

/// The state of an enemy's patrol, over the integers.
pub struct Patrol {
    pub start_y: int,
    pub time: int,
    pub moving_right: bool,
}

impl Patrol {
    /// Whether baseline and clock can be stored.
    pub open spec fn representable(self) -> bool {
        fits(self.start_y) && fits(self.time)
    }
}

/// The state of an enemy's patrol.
#[derive(Clone, Copy, Debug, PartialEq, Eq)]
pub struct Enemy {
    /// The height about which the enemy bobs, in millionths of a unit.
    pub start_y: i64,
    /// Milliseconds since the enemy was spawned.
    pub time: i64,
    /// The direction of the patrol.
    pub moving_right: bool,
}

impl View for Enemy {
    type V = Patrol;

    open spec fn view(&self) -> Patrol {
        Patrol {
            start_y: self.start_y as int,
            time: self.time as int,
            moving_right: self.moving_right,
        }
    }
}

/// An enemy entity, over the integers.
pub struct Alien {
    pub placement: Placement,
    pub sprite: Image,
    pub patrol: Patrol,
    pub speed: Point,
}

/// An enemy entity: placement, image, patrol state and velocity.
#[derive(Clone, Copy, Debug, PartialEq, Eq)]
pub struct EnemyBundle {
    pub transform: Transform,
    pub sprite: Sprite,
    pub enemy: Enemy,
    pub velocity: Velocity,
}

impl View for EnemyBundle {
    type V = Alien;

    open spec fn view(&self) -> Alien {
        Alien {
            placement: self.transform@,
            sprite: self.sprite@,
            patrol: self.enemy@,
            speed: self.velocity@,
        }
    }
}

/// The enemy at the start: at the left edge of the window, at height zero,
/// about to move right, half as wide as it is high, with no velocity of its
/// own.
pub open spec fn initial_alien() -> Alien {
    Alien {
        placement: Placement {
            translation: Point { x: -WINDOW_WIDTH / 2, y: 0 },
            layer: 0,
            rotation: 0,
            mirrored: false,
        },
        sprite: Image {
            custom_size: Point { x: ENEMY_SIZE / 2, y: ENEMY_SIZE as int },
            flip_x: false,
        },
        patrol: Patrol { start_y: 0, time: 0, moving_right: true },
        speed: Point { x: 0, y: 0 },
    }
}

/// Makes the enemy entity of a new game.
pub fn spawn_enemy() -> (bundle: EnemyBundle)
    ensures
        bundle@ == initial_alien(),
{
    EnemyBundle {
        transform: Transform::from_xyz(-WINDOW_WIDTH / 2, 0, 0),
        sprite: Sprite::sized(ENEMY_SIZE / 2, ENEMY_SIZE),
        enemy: Enemy { start_y: 0, time: 0, moving_right: true },
        velocity: Velocity { speed: Vec2::zero() },
    }
}

/// The horizontal position past which an enemy moving right turns round.
pub open spec fn right_boundary() -> int {
    WINDOW_WIDTH / 2 - ENEMY_SIZE
}

/// The horizontal position past which an enemy moving left turns round.
pub open spec fn left_boundary() -> int {
    -WINDOW_WIDTH / 2 + ENEMY_SIZE
}

/// The horizontal position after patrolling for `delta` milliseconds from `x`.
pub open spec fn patrolled_x(x: int, moving_right: bool, delta: int) -> int {
    if moving_right {
        x + ENEMY_SPEED * delta
    } else {
        x - ENEMY_SPEED * delta
    }
}

/// Whether the enemy turns round in this step: moving right it has passed
/// the right boundary, moving left the left one.
pub open spec fn turns(x: int, moving_right: bool, delta: int) -> bool {
    if moving_right {
        patrolled_x(x, moving_right, delta) > right_boundary()
    } else {
        patrolled_x(x, moving_right, delta) < left_boundary()
    }
}

/// The phase of the wave, in thousandths of a radian, when the enemy's clock
/// shows `time`.
pub open spec fn wave_phase(time: int) -> int {
    time * WAVE_FREQUENCY
}

/// The height of an enemy with baseline `start_y` where the sine of its
/// phase, in millionths, is `sine`.
pub open spec fn wave_height(start_y: int, sine: int) -> int {
    start_y + WAVE_AMPLITUDE * sine
}

/// The patrol state after a step of `delta` milliseconds from `x`: the clock
/// advances and the direction changes exactly where the enemy turns.
pub open spec fn patrolled_enemy(enemy: Patrol, x: int, delta: int) -> Patrol {
    Patrol {
        time: enemy.time + delta,
        moving_right: enemy.moving_right != turns(x, enemy.moving_right, delta),
        ..enemy
    }
}

/// The placement after a step of `delta` milliseconds, where `sine` is the
/// sine, in millionths, of the phase at the end of the step: the enemy rides
/// the wave, moves on in its direction, and is mirrored when it turns to the
/// left and unmirrored when it turns to the right.
pub open spec fn patrolled_placement(
    enemy: Patrol,
    placement: Placement,
    delta: int,
    sine: int,
) -> Placement {
    Placement {
        translation: Point {
            x: patrolled_x(placement.translation.x, enemy.moving_right, delta),
            y: wave_height(enemy.start_y, sine),
        },
        mirrored: if turns(placement.translation.x, enemy.moving_right, delta) {
            enemy.moving_right
        } else {
            placement.mirrored
        },
        ..placement
    }
}

impl Enemy {
    /// The phase of the wave, in thousandths of a radian, at the end of a
    /// frame of `delta` milliseconds: the angle whose sine
    /// [`enemy_movement`] is to be given for that frame. `None` where the
    /// phase cannot be stored.
    pub fn next_wave_phase(&self, delta: u32) -> (phase: Option<i64>)
        ensures
            phase is Some <==> fits(wave_phase(self@.time + delta)),
            phase matches Some(angle) ==> angle == wave_phase(self@.time + delta),
    {
        let phase: i128 = (self.time as i128 + delta as i128) * (WAVE_FREQUENCY as i128);
        if storable(phase) {
            Some(phase as i64)
        } else {
            None
        }
    }
}

/// Tells whether [`enemy_movement`] can run: whether the clock and the
/// position it would store can be stored.
pub fn can_enemy_movement(
    transform: &Transform,
    enemy: &Enemy,
    delta: u32,
    sine: i32,
) -> (ok: bool)
    ensures
        ok == ({
            &&& patrolled_enemy(enemy@, transform@.translation.x, delta as int).representable()
            &&& patrolled_placement(enemy@, transform@, delta as int, sine as int).representable()
        }),
{
    let time: i128 = enemy.time as i128 + delta as i128;
    let height: i128 = enemy.start_y as i128 + (WAVE_AMPLITUDE as i128) * (sine as i128);
    let stride: i128 = scaled(ENEMY_SPEED, delta);
    let x: i128 = if enemy.moving_right {
        transform.translation.x as i128 + stride
    } else {
        transform.translation.x as i128 - stride
    };
    storable(time) && storable(height) && storable(x)
}

/// One step of the patrol, run once a frame for each enemy. `sine` is the
/// sine, in millionths, of the phase that [`Enemy::next_wave_phase`] gives
/// for this frame.
pub fn enemy_movement(transform: &mut Transform, enemy: &mut Enemy, delta: u32, sine: i32)
    requires
        patrolled_enemy(old(enemy)@, old(transform)@.translation.x, delta as int).representable(),
        patrolled_placement(
            old(enemy)@,
            old(transform)@,
            delta as int,
            sine as int,
        ).representable(),
    ensures
        final(enemy)@ == patrolled_enemy(old(enemy)@, old(transform)@.translation.x, delta as int),
        final(transform)@ == patrolled_placement(
            old(enemy)@,
            old(transform)@,
            delta as int,
            sine as int,
        ),
{
    let time: i128 = enemy.time as i128 + delta as i128;
    enemy.time = time as i64;
    let height: i128 = enemy.start_y as i128 + (WAVE_AMPLITUDE as i128) * (sine as i128);
    transform.translation.y = height as i64;
    let stride: i128 = scaled(ENEMY_SPEED, delta);
    if enemy.moving_right {
        let x: i128 = transform.translation.x as i128 + stride;
        transform.translation.x = x as i64;
        if transform.translation.x > WINDOW_WIDTH / 2 - ENEMY_SIZE {
            enemy.moving_right = false;
            transform.mirrored = true;
        }
    } else {
        let x: i128 = transform.translation.x as i128 - stride;
        transform.translation.x = x as i64;
        if transform.translation.x < -WINDOW_WIDTH / 2 + ENEMY_SIZE {
            enemy.moving_right = true;
            transform.mirrored = false;
        }
    }
}

impl Alien {
    /// The enemy after `delta` milliseconds of moving by its own velocity.
    pub open spec fn drift(self, delta: int) -> Alien {
        Alien { placement: integrate(self.placement, self.speed, delta), ..self }
    }

    /// The enemy after one step of its patrol.
    pub open spec fn patrol_step(self, delta: int, sine: int) -> Alien {
        Alien {
            placement: patrolled_placement(self.patrol, self.placement, delta, sine),
            patrol: patrolled_enemy(self.patrol, self.placement.translation.x, delta),
            ..self
        }
    }

    /// Whether the enemy after one step of its patrol can be stored.
    pub open spec fn can_patrol(self, delta: int, sine: int) -> bool {
        &&& self.patrol_step(delta, sine).placement.representable()
        &&& self.patrol_step(delta, sine).patrol.representable()
    }

    /// Whether all that a frame of `delta` milliseconds stores of this enemy
    /// can be stored: its position after moving by its own velocity, and
    /// what the step of its patrol makes of that.
    pub open spec fn fits_frame(self, delta: int, sine: int) -> bool {
        &&& self.drift(delta).placement.representable()
        &&& self.drift(delta).can_patrol(delta, sine)
    }
}

impl EnemyBundle {
    /// Tells whether a frame of `delta` milliseconds can store what it makes
    /// of this enemy.
    pub fn can_pass_frame(&self, delta: u32, sine: i32) -> (ok: bool)
        ensures
            ok == self@.fits_frame(delta as int, sine as int),
    {
        if !can_apply_velocity(&self.velocity, &self.transform, delta) {
            return false;
        }
        let mut drifted = *self;
        apply_velocity(&drifted.velocity, &mut drifted.transform, delta);
        can_enemy_movement(&drifted.transform, &drifted.enemy, delta, sine)
    }
}

/// The enemies of a list of enemy entities, in order.
pub open spec fn aliens(enemies: Seq<EnemyBundle>) -> Seq<Alien> {
    enemies.map_values(|enemy: EnemyBundle| enemy@)
}

/// The enemies after all of them have moved by their own velocities.
pub open spec fn all_drifted(patrolling: Seq<Alien>, delta: int) -> Seq<Alien> {
    patrolling.map_values(|alien: Alien| alien.drift(delta))
}

/// Whether every enemy's position after moving by its own velocity can be
/// stored.
pub open spec fn all_can_drift(patrolling: Seq<Alien>, delta: int) -> bool {
    forall|i: int|
        0 <= i < patrolling.len() ==> (#[trigger] patrolling[i].drift(
            delta,
        )).placement.representable()
}

/// The enemies after each has made one step of its patrol, the enemy at
/// index `i` with the sine at index `i`.
pub open spec fn all_patrolled(patrolling: Seq<Alien>, delta: int, sines: Seq<i32>) -> Seq<Alien> {
    Seq::new(patrolling.len(), |i: int| patrolling[i].patrol_step(delta, sines[i] as int))
}

/// Whether every enemy after one step of its patrol can be stored.
pub open spec fn all_can_patrol(patrolling: Seq<Alien>, delta: int, sines: Seq<i32>) -> bool {
    forall|i: int|
        0 <= i < patrolling.len() ==> (#[trigger] patrolling[i]).can_patrol(
            delta,
            sines[i] as int,
        )
}

/// The wave knows nothing of the patrol. Two enemies with the same baseline
/// and the same clock have, after frames of the same length, the same phase
/// and, given the sine of that phase, the same height, wherever they stand,
/// whichever way they head and whatever their heights were.
pub proof fn law_height_independent_of_patrol(
    one: Patrol,
    at_one: Placement,
    other: Patrol,
    at_other: Placement,
    delta: int,
    sine: int,
)
    requires
        one.start_y == other.start_y,
        one.time == other.time,
    ensures
        ({
            let first = patrolled_enemy(one, at_one.translation.x, delta);
            let second = patrolled_enemy(other, at_other.translation.x, delta);
            &&& first.time == second.time
            &&& wave_phase(first.time) == wave_phase(second.time)
            &&& wave_phase(first.time) == WAVE_FREQUENCY * (one.time + delta)
            &&& patrolled_placement(one, at_one, delta, sine).translation.y
                == patrolled_placement(other, at_other, delta, sine).translation.y
        }),
{
}

/// Moves every enemy by its own velocity over a frame of `delta`
/// milliseconds.
pub fn move_enemies(enemies: &mut Vec<EnemyBundle>, delta: u32)
    requires
        all_can_drift(aliens(old(enemies)@), delta as int),
    ensures
        final(enemies).len() == old(enemies).len(),
        aliens(final(enemies)@) == all_drifted(aliens(old(enemies)@), delta as int),
{
    let ghost before = aliens(enemies@);
    let mut i: usize = 0;
    while i < enemies.len()
        invariant
            i <= enemies.len(),
            enemies.len() == before.len(),
            all_can_drift(before, delta as int),
            forall|j: int|
                0 <= j < i ==> (#[trigger] enemies@[j])@ == before[j].drift(delta as int),
            forall|j: int| i <= j < enemies.len() ==> (#[trigger] enemies@[j])@ == before[j],
        decreases enemies.len() - i,
    {
        let mut enemy = enemies[i];
        assert(before[i as int].drift(delta as int).placement.representable());
        apply_velocity(&enemy.velocity, &mut enemy.transform, delta);
        enemies.set(i, enemy);
        i = i + 1;
    }
}

/// One step of the patrol for every enemy, the enemy at index `i` with the
/// sine at index `i`.
pub fn patrol_enemies(enemies: &mut Vec<EnemyBundle>, delta: u32, sines: &Vec<i32>)
    requires
        sines.len() == old(enemies).len(),
        all_can_patrol(aliens(old(enemies)@), delta as int, sines@),
    ensures
        final(enemies).len() == old(enemies).len(),
        aliens(final(enemies)@) == all_patrolled(aliens(old(enemies)@), delta as int, sines@),
{
    let ghost before = aliens(enemies@);
    let mut i: usize = 0;
    while i < enemies.len()
        invariant
            i <= enemies.len(),
            enemies.len() == before.len(),
            sines.len() == enemies.len(),
            all_can_patrol(before, delta as int, sines@),
            forall|j: int|
                0 <= j < i ==> (#[trigger] enemies@[j])@ == before[j].patrol_step(
                    delta as int,
                    sines@[j] as int,
                ),
            forall|j: int| i <= j < enemies.len() ==> (#[trigger] enemies@[j])@ == before[j],
        decreases enemies.len() - i,
    {
        let mut enemy = enemies[i];
        enemy_movement(&mut enemy.transform, &mut enemy.enemy, delta, sines[i]);
        enemies.set(i, enemy);
        i = i + 1;
    }
}

/// The enemy turns exactly when it crosses the boundary ahead of it: moving
/// right it turns left when the step ends beyond the right boundary, moving
/// left it turns right when the step ends beyond the left one, and it keeps
/// its direction otherwise. A turn to the left mirrors it, a turn to the
/// right unmirrors it, and between turns its mirroring stays.
pub proof fn law_patrol_turns_at_boundary(
    enemy: Patrol,
    placement: Placement,
    delta: nat,
    sine: int,
)
    ensures
        ({
            let x = placement.translation.x;
            let next = patrolled_enemy(enemy, x, delta as int);
            let drawn = patrolled_placement(enemy, placement, delta as int, sine);
            &&& enemy.moving_right ==> (next.moving_right <==> x + ENEMY_SPEED * delta
                <= WINDOW_WIDTH / 2 - ENEMY_SIZE)
            &&& !enemy.moving_right ==> (next.moving_right <==> x - ENEMY_SPEED * delta
                < -WINDOW_WIDTH / 2 + ENEMY_SIZE)
            &&& next.moving_right != enemy.moving_right ==> drawn.mirrored == !next.moving_right
            &&& next.moving_right == enemy.moving_right ==> drawn.mirrored == placement.mirrored
            &&& next.time == enemy.time + delta
            &&& next.start_y == enemy.start_y
        }),
{
}

/// Between the left edge of the window and the right boundary. An enemy
/// there stays there over a step, provided the step does not carry it past
/// the right boundary when it moves right, nor past the left edge when it
/// moves left.
pub proof fn law_patrol_between_edge_and_boundary(x: int, moving_right: bool, delta: nat)
    requires
        -WINDOW_WIDTH / 2 <= x <= WINDOW_WIDTH / 2 - ENEMY_SIZE,
        moving_right ==> x + ENEMY_SPEED * delta <= WINDOW_WIDTH / 2 - ENEMY_SIZE,
        !moving_right ==> x - ENEMY_SPEED * delta >= -WINDOW_WIDTH / 2,
    ensures
        -WINDOW_WIDTH / 2 <= patrolled_x(x, moving_right, delta as int) <= WINDOW_WIDTH / 2
            - ENEMY_SIZE,
{
}

/// Whether an enemy at `x` is inside the window and has not yet passed the
/// boundary it is heading for.
pub open spec fn on_patrol(x: int, moving_right: bool) -> bool {
    &&& -WINDOW_WIDTH / 2 <= x <= WINDOW_WIDTH / 2
    &&& moving_right ==> x <= right_boundary()
    &&& !moving_right ==> x >= left_boundary()
}

/// Where an enemy is, and where it is heading, after one step of its patrol
/// for each entry of `deltas`, in order.
pub open spec fn patrol_walk(x: int, moving_right: bool, deltas: Seq<nat>) -> (int, bool)
    decreases deltas.len(),
{
    if deltas.len() == 0 {
        (x, moving_right)
    } else {
        let before = patrol_walk(x, moving_right, deltas.drop_last());
        (
            patrolled_x(before.0, before.1, deltas.last() as int),
            before.1 != turns(before.0, before.1, deltas.last() as int),
        )
    }
}

/// The enemy never leaves the window. From the place where it is spawned, or
/// from any place inside the window short of the boundary ahead, it is still
/// inside the window after any number of steps, none of which is longer than
/// the enemy takes to cover its own size.
pub proof fn law_patrol_stays_in_window(x: int, moving_right: bool, deltas: Seq<nat>)
    requires
        on_patrol(x, moving_right),
        forall|i: int| 0 <= i < deltas.len() ==> ENEMY_SPEED * #[trigger] deltas[i] <= ENEMY_SIZE,
    ensures
        ({
            let end = patrol_walk(x, moving_right, deltas);
            &&& on_patrol(end.0, end.1)
            &&& -WINDOW_WIDTH / 2 <= end.0 <= WINDOW_WIDTH / 2
        }),
        on_patrol(initial_alien().placement.translation.x, initial_alien().patrol.moving_right),
    decreases deltas.len(),
{
    if deltas.len() > 0 {
        law_patrol_stays_in_window(x, moving_right, deltas.drop_last());
    }
}

/// The height rides the wave. After every step the enemy's height is its
/// baseline plus the amplitude times the sine it was given, whatever its
/// horizontal position, its direction and the length of the step; so it is
/// never farther from the baseline than the amplitude when the sine is
/// between minus one and one.
pub proof fn law_height_rides_wave(enemy: Patrol, placement: Placement, delta: int, sine: int)
    ensures
        ({
            let height = patrolled_placement(enemy, placement, delta, sine).translation.y;
            &&& height == enemy.start_y + WAVE_AMPLITUDE * sine
            &&& -SINE_ONE <= sine <= SINE_ONE ==> enemy.start_y - WAVE_AMPLITUDE * UNIT <= height
                <= enemy.start_y + WAVE_AMPLITUDE * UNIT
        }),
{
}

} // verus!
