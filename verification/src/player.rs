//! The player: walking, jumping, falling, landing and throwing bottles.

use vstd::prelude::*;
use bevy::input::keyboard::KeyCode;
use bevy::input::Input;
use crate::constants::{
    CHEMICAL_PROJECTILE_COOLDOWN, CHEMICAL_PROJECTILE_SIZE, CHEMICAL_PROJECTILE_SPEED, GRAVITY,
    GROUND_LEVEL, JUMP_FORCE, NO_SHOT_YET, PLAYER_SPEED, SPRITE_SIZE,
};
use crate::geometry::{
    fits, scaled, storable, Image, Placement, Point, Sprite, Transform, Vec2,
};
use crate::keyboard::Controls;
use crate::movement::{can_apply_velocity, integrate, Velocity};
use crate::projectile::{Bottle, ChemicalProjectile};

verus! {

/// The state of the player character.
#[derive(Clone, Copy, Debug, PartialEq, Eq)]
pub struct Player {
    /// Set by a jump, cleared by landing.
    pub is_jumping: bool,
    /// The side the player last walked towards.
    pub facing_right: bool,
    /// When the last bottle was thrown, in milliseconds since the start. For
    /// a player that has thrown none it lies one cooldown before the start,
    /// so that the first bottle can be thrown at once.
    pub last_shot_time: i64,
}

/// The player entity, over the integers.
pub struct Scientist {
    pub placement: Placement,
    pub sprite: Image,
    pub player: Player,
    pub speed: Point,
}

/// The player entity: placement, image, state and velocity.
#[derive(Clone, Copy, Debug, PartialEq, Eq)]
pub struct PlayerBundle {
    pub transform: Transform,
    pub sprite: Sprite,
    pub player: Player,
    pub velocity: Velocity,
}

impl View for PlayerBundle {
    type V = Scientist;

    open spec fn view(&self) -> Scientist {
        Scientist {
            placement: self.transform@,
            sprite: self.sprite@,
            player: self.player,
            speed: self.velocity@,
        }
    }
}

/// The player at the start: on the ground at the middle of the window, at
/// rest, facing right, not jumping, and ready to throw: its last throw
/// counts as one cooldown before the start.
pub open spec fn initial_scientist() -> Scientist {
    Scientist {
        placement: Placement {
            translation: Point { x: 0, y: GROUND_LEVEL as int },
            layer: 0,
            rotation: 0,
            mirrored: false,
        },
        sprite: Image {
            custom_size: Point { x: SPRITE_SIZE as int, y: SPRITE_SIZE as int },
            flip_x: false,
        },
        player: Player {
            is_jumping: false,
            facing_right: true,
            last_shot_time: NO_SHOT_YET,
        },
        speed: Point { x: 0, y: 0 },
    }
}

/// Makes the player entity of a new game.
pub fn spawn_player() -> (bundle: PlayerBundle)
    ensures
        bundle@ == initial_scientist(),
{
    PlayerBundle {
        transform: Transform::from_xyz(0, GROUND_LEVEL, 0),
        sprite: Sprite::sized(SPRITE_SIZE, SPRITE_SIZE),
        player: Player {
            is_jumping: false,
            facing_right: true,
            last_shot_time: NO_SHOT_YET,
        },
        velocity: Velocity { speed: Vec2::zero() },
    }
}

/// Whether a jump starts: a jump is asked for and the player is not already
/// in one.
pub open spec fn jumps(controls: Controls, player: Player) -> bool {
    controls.jump && !player.is_jumping
}

/// The player's state after the controller: walking right turns the player
/// to the right, else walking left turns it to the left, and a jump that
/// starts marks the player as jumping.
pub open spec fn steered_player(controls: Controls, player: Player) -> Player {
    Player {
        is_jumping: player.is_jumping || controls.jump,
        facing_right: if controls.right {
            true
        } else if controls.left {
            false
        } else {
            player.facing_right
        },
        ..player
    }
}

/// The player's speed after the controller: the walking direction times the
/// walking speed across, and the jump force upwards where a jump starts.
pub open spec fn steered_speed(controls: Controls, player: Player, speed: Point) -> Point {
    Point {
        x: controls.direction() * PLAYER_SPEED,
        y: if jumps(controls, player) {
            JUMP_FORCE as int
        } else {
            speed.y
        },
    }
}

/// The player's image after the controller: mirrored when walking left,
/// unmirrored when walking right.
pub open spec fn steered_sprite(controls: Controls, sprite: Image) -> Image {
    Image {
        flip_x: if controls.right {
            false
        } else if controls.left {
            true
        } else {
            sprite.flip_x
        },
        ..sprite
    }
}

/// The controller, on controls already read: sets the horizontal speed and
/// the facing from the walking keys and starts a jump on a fresh press.
pub fn steer(
    controls: &Controls,
    velocity: &mut Velocity,
    player: &mut Player,
    sprite: &mut Sprite,
)
    ensures
        final(velocity)@ == steered_speed(*controls, *old(player), old(velocity)@),
        *final(player) == steered_player(*controls, *old(player)),
        final(sprite)@ == steered_sprite(*controls, old(sprite)@),
{
    let mut direction: i64 = 0;
    if controls.left {
        direction = direction - 1;
        player.facing_right = false;
        sprite.flip_x = true;
    }
    if controls.right {
        direction = direction + 1;
        player.facing_right = true;
        sprite.flip_x = false;
    }
    if controls.jump && !player.is_jumping {
        velocity.speed.y = JUMP_FORCE;
        player.is_jumping = true;
    }
    velocity.speed.x = direction * PLAYER_SPEED;
}

/// The controller, run once a frame on the engine's keyboard state.
pub fn player_movement(
    keyboard: &Input<KeyCode>,
    velocity: &mut Velocity,
    player: &mut Player,
    sprite: &mut Sprite,
)
    ensures
        final(velocity)@ == steered_speed(Controls::of(*keyboard), *old(player), old(velocity)@),
        *final(player) == steered_player(Controls::of(*keyboard), *old(player)),
        final(sprite)@ == steered_sprite(Controls::of(*keyboard), old(sprite)@),
{
    let controls = Controls::read(keyboard);
    steer(&controls, velocity, player, sprite);
}

/// Whether the player lands: it stands at or below the ground and, with the
/// vertical speed `vertical` that gravity has just given it, does not rise.
pub open spec fn lands(height: int, vertical: int) -> bool {
    height <= GROUND_LEVEL && vertical <= 0
}

/// The speed after gravity has acted for `delta` milliseconds on a player at
/// height `height`: the vertical speed changes by gravity times time, and
/// becomes zero where the player lands.
pub open spec fn pulled_speed(height: int, speed: Point, delta: int) -> Point {
    Point {
        x: speed.x,
        y: if lands(height, speed.y + GRAVITY * delta) {
            0
        } else {
            speed.y + GRAVITY * delta
        },
    }
}

/// The player's state after gravity: landing ends a jump.
pub open spec fn pulled_player(height: int, speed: Point, delta: int, player: Player) -> Player {
    Player {
        is_jumping: player.is_jumping && !lands(height, speed.y + GRAVITY * delta),
        ..player
    }
}

/// Tells whether [`apply_gravity`] can run: whether the vertical speed it
/// would store can be stored.
pub fn can_apply_gravity(velocity: &Velocity, transform: &Transform, delta: u32) -> (ok: bool)
    ensures
        ok == fits(pulled_speed(transform@.translation.y, velocity@, delta as int).y),
{
    let vertical: i128 = velocity.speed.y as i128 + scaled(GRAVITY, delta);
    (transform.translation.y <= GROUND_LEVEL && vertical <= 0) || storable(vertical)
}

/// Gravity and landing, run once a frame after the controller and before the
/// integrator. The height read is the one the last frame left.
pub fn apply_gravity(
    velocity: &mut Velocity,
    player: &mut Player,
    transform: &Transform,
    delta: u32,
)
    requires
        fits(pulled_speed(transform@.translation.y, old(velocity)@, delta as int).y),
    ensures
        final(velocity)@ == pulled_speed(
            transform@.translation.y,
            old(velocity)@,
            delta as int,
        ),
        *final(player) == pulled_player(
            transform@.translation.y,
            old(velocity)@,
            delta as int,
            *old(player),
        ),
{
    let vertical: i128 = velocity.speed.y as i128 + scaled(GRAVITY, delta);
    if transform.translation.y <= GROUND_LEVEL && vertical <= 0 {
        velocity.speed.y = 0;
        player.is_jumping = false;
    } else {
        velocity.speed.y = vertical as i64;
    }
}

/// Whether the cooldown since the player's last throw is over at `now`.
pub open spec fn ready(player: Player, now: int) -> bool {
    now >= player.last_shot_time + CHEMICAL_PROJECTILE_COOLDOWN
}

/// The bottle that a player standing at `from` throws: it starts where the
/// player stands, flies level towards the side the player faces, and its
/// image is mirrored when that side is the left.
pub open spec fn thrown(player: Player, from: Placement) -> Bottle {
    Bottle {
        placement: Placement {
            translation: from.translation,
            layer: 0,
            rotation: 0,
            mirrored: false,
        },
        sprite: Image {
            custom_size: Point {
                x: CHEMICAL_PROJECTILE_SIZE as int,
                y: CHEMICAL_PROJECTILE_SIZE as int,
            },
            flip_x: !player.facing_right,
        },
        speed: Point {
            x: if player.facing_right {
                CHEMICAL_PROJECTILE_SPEED as int
            } else {
                -CHEMICAL_PROJECTILE_SPEED
            },
            y: 0,
        },
    }
}

/// The player's state after a throw at `now`.
pub open spec fn reloaded(player: Player, now: i64) -> Player {
    Player { last_shot_time: now, ..player }
}

/// Whether a bottle is thrown: the fire key is down and the cooldown is over.
pub open spec fn fires(fire: bool, player: Player, now: int) -> bool {
    fire && ready(player, now)
}

/// The player's state after the firing rule has run at `now`.
pub open spec fn after_launch(fire: bool, player: Player, now: i64) -> Player {
    if fires(fire, player, now as int) {
        reloaded(player, now)
    } else {
        player
    }
}

/// The firing rule, on a fire key already read: while `fire` is set and the
/// cooldown is over, throws one bottle and restarts the cooldown at `now`.
pub fn launch(
    fire: bool,
    now: i64,
    player: &mut Player,
    transform: &Transform,
) -> (spawned: Option<ChemicalProjectile>)
    ensures
        spawned is Some <==> fires(fire, *old(player), now as int),
        spawned matches Some(bottle) ==> bottle@ == thrown(*old(player), transform@),
        *final(player) == after_launch(fire, *old(player), now),
{
    if fire && now as i128 >= player.last_shot_time as i128 + CHEMICAL_PROJECTILE_COOLDOWN as i128 {
        let speed: i64 = if player.facing_right {
            CHEMICAL_PROJECTILE_SPEED
        } else {
            -CHEMICAL_PROJECTILE_SPEED
        };
        let bottle = ChemicalProjectile {
            transform: Transform::from_xyz(transform.translation.x, transform.translation.y, 0),
            sprite: Sprite {
                custom_size: Vec2 { x: CHEMICAL_PROJECTILE_SIZE, y: CHEMICAL_PROJECTILE_SIZE },
                flip_x: !player.facing_right,
            },
            velocity: Velocity { speed: Vec2 { x: speed, y: 0 } },
        };
        player.last_shot_time = now;
        Some(bottle)
    } else {
        None
    }
}

/// The firing rule, run once a frame on the engine's keyboard state and the
/// time since the start.
pub fn shoot_chemical(
    keyboard: &Input<KeyCode>,
    now: i64,
    player: &mut Player,
    transform: &Transform,
) -> (spawned: Option<ChemicalProjectile>)
    ensures
        spawned is Some <==> fires(Controls::of(*keyboard).fire, *old(player), now as int),
        spawned matches Some(bottle) ==> bottle@ == thrown(*old(player), transform@),
        *final(player) == after_launch(Controls::of(*keyboard).fire, *old(player), now),
{
    let controls = Controls::read(keyboard);
    launch(controls.fire, now, player, transform)
}

impl Scientist {
    /// The player after the controller.
    pub open spec fn steered(self, controls: Controls) -> Scientist {
        Scientist {
            speed: steered_speed(controls, self.player, self.speed),
            player: steered_player(controls, self.player),
            sprite: steered_sprite(controls, self.sprite),
            ..self
        }
    }

    /// The player after gravity and landing.
    pub open spec fn pulled(self, delta: int) -> Scientist {
        Scientist {
            speed: pulled_speed(self.placement.translation.y, self.speed, delta),
            player: pulled_player(self.placement.translation.y, self.speed, delta, self.player),
            ..self
        }
    }

    /// The player after the integrator.
    pub open spec fn moved(self, delta: int) -> Scientist {
        Scientist { placement: integrate(self.placement, self.speed, delta), ..self }
    }

    /// The player after the firing rule.
    pub open spec fn fired(self, fire: bool, now: i64) -> Scientist {
        Scientist { player: after_launch(fire, self.player, now), ..self }
    }

    /// Whether all that a frame of `delta` milliseconds stores of the player
    /// can be stored: its vertical speed after gravity and its position
    /// after the integrator.
    pub open spec fn fits_frame(self, controls: Controls, delta: int) -> bool {
        &&& fits(self.steered(controls).pulled(delta).speed.y)
        &&& self.steered(controls).pulled(delta).moved(delta).placement.representable()
    }
}

impl PlayerBundle {
    /// Tells whether a frame of `delta` milliseconds can store what it makes
    /// of the player.
    pub fn can_pass_frame(&self, controls: &Controls, delta: u32) -> (ok: bool)
        ensures
            ok == self@.fits_frame(*controls, delta as int),
    {
        let mut after = *self;
        steer(controls, &mut after.velocity, &mut after.player, &mut after.sprite);
        if !can_apply_gravity(&after.velocity, &after.transform, delta) {
            return false;
        }
        apply_gravity(&mut after.velocity, &mut after.player, &after.transform, delta);
        can_apply_velocity(&after.velocity, &after.transform, delta)
    }
}

/// A jump starts only on a fresh press of a jump key while the player is not
/// jumping, and then gives the jump force. In every other frame the
/// controller leaves the vertical speed and the jumping state alone, so a key
/// that is merely held starts nothing; and once a jump has started, a second
/// fresh press starts none.
pub proof fn law_jump_needs_fresh_press(
    controls: Controls,
    again: Controls,
    player: Player,
    speed: Point,
)
    ensures
        jumps(controls, player) <==> controls.jump && !player.is_jumping,
        jumps(controls, player) ==> ({
            &&& steered_speed(controls, player, speed).y == JUMP_FORCE
            &&& steered_player(controls, player).is_jumping
            &&& !jumps(again, steered_player(controls, player))
        }),
        !jumps(controls, player) ==> ({
            &&& steered_speed(controls, player, speed).y == speed.y
            &&& steered_player(controls, player).is_jumping == player.is_jumping
        }),
{
}

/// Landing. A player on the ground whose vertical speed is zero or downward
/// has, after gravity in that same frame, a vertical speed of exactly zero
/// and is no longer jumping; the integrator then leaves it on the ground.
pub proof fn law_landing(placement: Placement, speed: Point, player: Player, delta: nat)
    requires
        placement.translation.y == GROUND_LEVEL,
        speed.y <= 0,
    ensures
        ({
            let height = placement.translation.y;
            let pulled = pulled_speed(height, speed, delta as int);
            &&& pulled.y == 0
            &&& !pulled_player(height, speed, delta as int, player).is_jumping
            &&& integrate(placement, pulled, delta as int).translation.y == GROUND_LEVEL
        }),
{
}

/// A new player is ready. With a fire key down it throws at time zero, and
/// at any time after it, and that throw sets the time of its last throw to
/// the clock; so a player that holds fire from the start throws first at
/// time zero and next one cooldown later, not before.
pub proof fn law_new_player_is_ready(now: i64)
    requires
        now >= 0,
    ensures
        ({
            let new = initial_scientist().player;
            let first = after_launch(true, new, 0);
            &&& new.last_shot_time + CHEMICAL_PROJECTILE_COOLDOWN == 0
            &&& fires(true, new, 0)
            &&& fires(true, new, now as int)
            &&& after_launch(true, new, now).last_shot_time == now
            &&& first.last_shot_time == 0
            &&& fires(true, first, now as int) <==> now >= CHEMICAL_PROJECTILE_COOLDOWN
        }),
{
}

/// The time of the last throw never goes back.
pub proof fn law_last_shot_time_never_decreases(fire: bool, player: Player, now: i64)
    ensures
        after_launch(fire, player, now).last_shot_time >= player.last_shot_time,
{
}

/// The times at which bottles are thrown when the firing rule runs once for
/// each entry of `frames`, in order. An entry holds whether the fire key is
/// down in that frame, and the time of the frame.
pub open spec fn throw_times(player: Player, frames: Seq<(bool, i64)>) -> Seq<int>
    decreases frames.len(),
{
    if frames.len() == 0 {
        Seq::empty()
    } else {
        let fire = frames.first().0;
        let now = frames.first().1;
        let later = throw_times(after_launch(fire, player, now), frames.drop_first());
        if fires(fire, player, now as int) {
            seq![now as int] + later
        } else {
            later
        }
    }
}

/// Throws are spaced by the cooldown. Whatever the keys and the clock do over
/// any number of frames, every throw comes at least one cooldown after the
/// last throw before those frames, and any two throws in a row are at least
/// one cooldown apart.
pub proof fn law_throws_are_spaced(player: Player, frames: Seq<(bool, i64)>)
    ensures
        ({
            let times = throw_times(player, frames);
            &&& forall|i: int|
                0 <= i < times.len() ==> #[trigger] times[i] >= player.last_shot_time
                    + CHEMICAL_PROJECTILE_COOLDOWN
            &&& forall|i: int|
                0 < i < times.len() ==> #[trigger] times[i] - times[i - 1]
                    >= CHEMICAL_PROJECTILE_COOLDOWN
        }),
    decreases frames.len(),
{
    if frames.len() > 0 {
        let fire = frames.first().0;
        let now = frames.first().1;
        let next = after_launch(fire, player, now);
        let later = throw_times(next, frames.drop_first());
        law_throws_are_spaced(next, frames.drop_first());
        if fires(fire, player, now as int) {
            // The first throw is now; the later ones follow a throw at now.
            assert(throw_times(player, frames) == seq![now as int] + later);
        }
    }
}

} // verus!
