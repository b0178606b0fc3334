//! The whole scene, and the frame that runs every rule in its fixed order.

use vstd::prelude::*;
use crate::background::{initial_backdrop, spawn_background, Backdrop, Background};
use crate::constants::{
    CHEMICAL_PROJECTILE_COOLDOWN, ENEMY_SIZE, ENEMY_SPEED, GROUND_LEVEL, VIRTUAL_HEIGHT,
    VIRTUAL_WIDTH,
};
use crate::enemy::{
    aliens, all_drifted, all_patrolled, initial_alien, move_enemies, on_patrol, patrol_enemies,
    spawn_enemy, Alien, EnemyBundle,
};
use crate::keyboard::Controls;
use crate::movement::apply_velocity;
use crate::player::{
    apply_gravity, fires, initial_scientist, jumps, launch, spawn_player, steer, thrown,
    PlayerBundle, Scientist,
};
use crate::projectile::{
    all_can_spin, all_flown, all_spun, bottles, cleanup_projectiles,
    law_cleanup_removes_what_left, move_projectiles, remaining, rotate_projectiles, Bottle,
    ChemicalProjectile,
};

verus! {

/// The camera: it fits a fixed virtual resolution, in pixels, into the
/// window.
#[derive(Clone, Copy, Debug, PartialEq, Eq)]
pub struct Camera {
    pub width: u32,
    pub height: u32,
}

/// Makes the camera of a new game.
pub fn spawn_camera() -> (camera: Camera)
    ensures
        camera == (Camera { width: VIRTUAL_WIDTH, height: VIRTUAL_HEIGHT }),
{
    Camera { width: VIRTUAL_WIDTH, height: VIRTUAL_HEIGHT }
}

/// What one frame is given, over sequences.
pub struct Tick {
    pub controls: Controls,
    pub delta: u32,
    pub now: i64,
    pub sines: Seq<i32>,
}

/// What one frame is given.
#[derive(Debug, PartialEq, Eq)]
pub struct FrameInput {
    /// What the player asks for.
    pub controls: Controls,
    /// The length of the frame, in milliseconds.
    pub delta: u32,
    /// The time since the start, in milliseconds.
    pub now: i64,
    /// For each enemy, in order, the sine, in millionths, of the phase that
    /// `Enemy::next_wave_phase` gives for this frame.
    pub sines: Vec<i32>,
}

impl View for FrameInput {
    type V = Tick;

    open spec fn view(&self) -> Tick {
        Tick { controls: self.controls, delta: self.delta, now: self.now, sines: self.sines@ }
    }
}

/// Everything in the game, over the integers.
pub struct Scene {
    pub camera: Camera,
    pub backdrop: Backdrop,
    pub scientist: Scientist,
    pub aliens: Seq<Alien>,
    pub bottles: Seq<Bottle>,
}

/// Everything in the game: the camera, the backdrop, the one player, the
/// enemies and the bottles in flight, oldest first.
#[derive(Debug, PartialEq, Eq)]
pub struct World {
    pub camera: Camera,
    pub background: Background,
    pub player: PlayerBundle,
    pub enemies: Vec<EnemyBundle>,
    pub projectiles: Vec<ChemicalProjectile>,
}

impl View for World {
    type V = Scene;

    open spec fn view(&self) -> Scene {
        Scene {
            camera: self.camera,
            backdrop: self.background@,
            scientist: self.player@,
            aliens: aliens(self.enemies@),
            bottles: bottles(self.projectiles@),
        }
    }
}

/// The scene of a new game: the camera on the virtual resolution, the
/// backdrop, the player, one enemy, no bottle.
pub open spec fn initial_scene() -> Scene {
    Scene {
        camera: Camera { width: VIRTUAL_WIDTH, height: VIRTUAL_HEIGHT },
        backdrop: initial_backdrop(),
        scientist: initial_scientist(),
        aliens: seq![initial_alien()],
        bottles: Seq::empty(),
    }
}

/// Makes the scene of a new game.
pub fn setup() -> (world: World)
    ensures
        world@ == initial_scene(),
{
    let mut enemies: Vec<EnemyBundle> = Vec::new();
    enemies.push(spawn_enemy());
    let world = World {
        camera: spawn_camera(),
        background: spawn_background(),
        player: spawn_player(),
        enemies,
        projectiles: Vec::new(),
    };
    proof {
        assert(world@.aliens =~= seq![initial_alien()]);
        assert(world@.bottles =~= Seq::empty());
    }
    world
}

/// The player after the controller, gravity and the integrator of one frame.
pub open spec fn walked(scientist: Scientist, tick: Tick) -> Scientist {
    scientist.steered(tick.controls).pulled(tick.delta as int).moved(tick.delta as int)
}

/// The bottles in flight after the integrator and the firing rule of one
/// frame: a bottle thrown in this frame starts where the player stands after
/// the integrator and comes last.
pub open spec fn launched(scene: Scene, tick: Tick) -> Seq<Bottle> {
    let thrower = walked(scene.scientist, tick);
    let flying = all_flown(scene.bottles, tick.delta as int);
    if fires(tick.controls.fire, thrower.player, tick.now as int) {
        flying.push(thrown(thrower.player, thrower.placement))
    } else {
        flying
    }
}

/// The scene after one frame. The rules run in this order: controller,
/// gravity, integrator, firing, cleanup, spin, patrol. Camera and backdrop
/// stay as they are.
pub open spec fn frame(scene: Scene, tick: Tick) -> Scene {
    Scene {
        camera: scene.camera,
        backdrop: scene.backdrop,
        scientist: walked(scene.scientist, tick).fired(tick.controls.fire, tick.now),
        aliens: all_patrolled(
            all_drifted(scene.aliens, tick.delta as int),
            tick.delta as int,
            tick.sines,
        ),
        bottles: all_spun(remaining(launched(scene, tick)), tick.delta as int),
    }
}

/// Whether a frame can be computed: there is one sine for each enemy, and
/// every number the frame stores, of the player, of each bottle and of each
/// enemy, can be stored.
pub open spec fn frame_fits(scene: Scene, tick: Tick) -> bool {
    &&& tick.sines.len() == scene.aliens.len()
    &&& scene.scientist.fits_frame(tick.controls, tick.delta as int)
    &&& forall|i: int|
        0 <= i < scene.bottles.len() ==> (#[trigger] scene.bottles[i]).fits_frame(
            tick.delta as int,
        )
    &&& forall|i: int|
        0 <= i < scene.aliens.len() ==> (#[trigger] scene.aliens[i]).fits_frame(
            tick.delta as int,
            tick.sines[i] as int,
        )
}

/// When a frame can be computed, every bottle that its cleanup leaves can
/// spin: it is a bottle that flew in from the last frame, or the one just
/// thrown, whose angle is zero.
proof fn lemma_remaining_can_spin(scene: Scene, tick: Tick)
    requires
        frame_fits(scene, tick),
    ensures
        all_can_spin(remaining(launched(scene, tick)), tick.delta as int),
{
    law_cleanup_removes_what_left(launched(scene, tick));
}

impl World {
    /// Tells whether [`World::advance`] can run on this input.
    pub fn can_advance(&self, input: &FrameInput) -> (ok: bool)
        ensures
            ok == frame_fits(self@, input@),
    {
        if input.sines.len() != self.enemies.len() {
            return false;
        }
        if !self.player.can_pass_frame(&input.controls, input.delta) {
            return false;
        }
        let mut i: usize = 0;
        while i < self.projectiles.len()
            invariant
                i <= self.projectiles.len(),
                forall|j: int|
                    0 <= j < i ==> (#[trigger] self@.bottles[j]).fits_frame(input.delta as int),
            decreases self.projectiles.len() - i,
        {
            assert(self@.bottles[i as int] == self.projectiles@[i as int]@);
            if !self.projectiles[i].can_pass_frame(input.delta) {
                return false;
            }
            i = i + 1;
        }
        let mut k: usize = 0;
        while k < self.enemies.len()
            invariant
                k <= self.enemies.len(),
                input.sines.len() == self.enemies.len(),
                forall|j: int|
                    0 <= j < k ==> (#[trigger] self@.aliens[j]).fits_frame(
                        input.delta as int,
                        input.sines@[j] as int,
                    ),
            decreases self.enemies.len() - k,
        {
            assert(self@.aliens[k as int] == self.enemies@[k as int]@);
            if !self.enemies[k].can_pass_frame(input.delta, input.sines[k]) {
                return false;
            }
            k = k + 1;
        }
        true
    }

    /// Runs one frame.
    pub fn advance(&mut self, input: &FrameInput)
        requires
            frame_fits(old(self)@, input@),
        ensures
            final(self)@ == frame(old(self)@, input@),
    {
        proof {
            lemma_remaining_can_spin(old(self)@, input@);
        }
        steer(
            &input.controls,
            &mut self.player.velocity,
            &mut self.player.player,
            &mut self.player.sprite,
        );
        apply_gravity(
            &mut self.player.velocity,
            &mut self.player.player,
            &self.player.transform,
            input.delta,
        );
        apply_velocity(&self.player.velocity, &mut self.player.transform, input.delta);
        move_projectiles(&mut self.projectiles, input.delta);
        move_enemies(&mut self.enemies, input.delta);
        let spawned = launch(
            input.controls.fire,
            input.now,
            &mut self.player.player,
            &self.player.transform,
        );
        match spawned {
            Some(bottle) => {
                proof {
                    assert(bottles(self.projectiles@.push(bottle)) =~= bottles(
                        self.projectiles@,
                    ).push(bottle@));
                }
                self.projectiles.push(bottle);
            },
            None => {},
        }
        cleanup_projectiles(&mut self.projectiles);
        rotate_projectiles(&mut self.projectiles, input.delta);
        patrol_enemies(&mut self.enemies, input.delta, &input.sines);
    }
}

/// The scene after one frame for each entry of `ticks`, in order.
pub open spec fn run(scene: Scene, ticks: Seq<Tick>) -> Scene
    decreases ticks.len(),
{
    if ticks.len() == 0 {
        scene
    } else {
        frame(run(scene, ticks.drop_last()), ticks.last())
    }
}

/// Whether the player, if it is not jumping, stands on the ground with no
/// vertical speed.
pub open spec fn settled(scientist: Scientist) -> bool {
    !scientist.player.is_jumping ==> ({
        &&& scientist.placement.translation.y == GROUND_LEVEL
        &&& scientist.speed.y == 0
    })
}

/// Whether an enemy has no speed of its own across, is inside the window and
/// has not yet passed the boundary it is heading for.
pub open spec fn patrolling(alien: Alien) -> bool {
    alien.speed.x == 0 && on_patrol(alien.placement.translation.x, alien.patrol.moving_right)
}

/// Whether a bottle is thrown in the frame that `tick` makes of `scene`.
pub open spec fn throws(scene: Scene, tick: Tick) -> bool {
    fires(tick.controls.fire, walked(scene.scientist, tick).player, tick.now as int)
}

/// Whether a bottle is thrown in frame number `k` of the run that `ticks`
/// makes from `scene`, counting from zero.
pub open spec fn throws_in(scene: Scene, ticks: Seq<Tick>, k: int) -> bool {
    throws(run(scene, ticks.take(k)), ticks[k])
}

/// Whether a jump starts in frame number `k` of the run that `ticks` makes
/// from `scene`, counting from zero.
pub open spec fn jump_starts_in(scene: Scene, ticks: Seq<Tick>, k: int) -> bool {
    jumps(ticks[k].controls, run(scene, ticks.take(k)).scientist.player)
}

/// A new game starts with the player settled on the ground and ready to
/// throw at time zero, its one enemy on patrol inside the window and no
/// bottle in flight.
pub proof fn law_new_game()
    ensures
        settled(initial_scene().scientist),
        fires(true, initial_scene().scientist.player, 0),
        initial_scene().scientist.placement.translation.y == GROUND_LEVEL,
        initial_scene().aliens.len() == 1,
        patrolling(initial_scene().aliens[0]),
        initial_scene().bottles.len() == 0,
{
}

/// The player never falls below the ground: after every frame, whatever the
/// keys, the clock and the lengths of the frames, its height is at least the
/// ground level.
pub proof fn law_player_never_below_ground(scene: Scene, ticks: Seq<Tick>)
    requires
        scene.scientist.placement.translation.y >= GROUND_LEVEL,
    ensures
        run(scene, ticks).scientist.placement.translation.y >= GROUND_LEVEL,
    decreases ticks.len(),
{
    if ticks.len() > 0 {
        law_player_never_below_ground(scene, ticks.drop_last());
    }
}

/// A player that is not jumping rests on the ground: once settled, the
/// player is settled after every frame.
pub proof fn law_player_settled(scene: Scene, ticks: Seq<Tick>)
    requires
        settled(scene.scientist),
    ensures
        settled(run(scene, ticks).scientist),
    decreases ticks.len(),
{
    if ticks.len() > 0 {
        law_player_settled(scene, ticks.drop_last());
    }
}

/// One press, one jump. If a jump key goes down in the first frame of a run,
/// with the player not jumping, and no jump key goes down afresh in the
/// frames after it, however long the key is held, then a jump starts in the
/// first frame and in no other.
pub proof fn law_one_press_one_jump(scene: Scene, ticks: Seq<Tick>)
    requires
        ticks.len() > 0,
        ticks[0].controls.jump,
        !scene.scientist.player.is_jumping,
        forall|k: int| 0 < k < ticks.len() ==> !(#[trigger] ticks[k]).controls.jump,
    ensures
        jump_starts_in(scene, ticks, 0),
        forall|k: int| 0 < k < ticks.len() ==> !#[trigger] jump_starts_in(scene, ticks, k),
{
}

/// A frame throws by the firing rule alone. Whether a bottle is thrown
/// depends only on the fire key, the clock and the time of the last throw as
/// the frame found it; a throw sets the time of the last throw to the clock,
/// and nothing else in the frame changes it. The bottle thrown has no
/// vertical speed and starts at the player's place, on or above the ground.
pub proof fn law_frame_throws_by_the_firing_rule(scene: Scene, tick: Tick)
    ensures
        ({
            let last_shot = scene.scientist.player.last_shot_time;
            let after = frame(scene, tick).scientist;
            let newest = launched(scene, tick).last();
            &&& throws(scene, tick) <==> tick.controls.fire && tick.now >= last_shot
                + CHEMICAL_PROJECTILE_COOLDOWN
            &&& throws(scene, tick) ==> after.player.last_shot_time == tick.now
            &&& !throws(scene, tick) ==> after.player.last_shot_time == last_shot
            &&& after.player.last_shot_time >= last_shot
            &&& throws(scene, tick) ==> newest.speed.y == 0
            &&& throws(scene, tick) ==> newest.placement.translation == after.placement.translation
            &&& throws(scene, tick) ==> newest.placement.translation.y >= GROUND_LEVEL
        }),
{
}

/// Fire held from the start throws at once. In a new game, if a fire key is
/// down in the first frame, a bottle is thrown in that frame, whatever the
/// clock shows from zero on, and the time of the last throw becomes the
/// clock of that frame.
pub proof fn law_new_game_throws_at_once(ticks: Seq<Tick>)
    requires
        ticks.len() > 0,
        ticks[0].controls.fire,
        ticks[0].now >= 0,
    ensures
        throws_in(initial_scene(), ticks, 0),
        run(initial_scene(), ticks.take(1)).scientist.player.last_shot_time == ticks[0].now,
{
    lemma_run_step(initial_scene(), ticks, 0);
    law_frame_throws_by_the_firing_rule(initial_scene(), ticks[0]);
}

/// A run of one more frame is the run so far and then that frame.
proof fn lemma_run_step(scene: Scene, ticks: Seq<Tick>, k: int)
    requires
        0 <= k < ticks.len(),
    ensures
        run(scene, ticks.take(k + 1)) == frame(run(scene, ticks.take(k)), ticks[k]),
{
    assert(ticks.take(k + 1).drop_last() =~= ticks.take(k));
}

/// From a throw until the next, the time of the last throw is the clock of
/// the frame that threw.
proof fn lemma_last_throw_remembered(scene: Scene, ticks: Seq<Tick>, first: int, k: int)
    requires
        0 <= first < k <= ticks.len(),
        throws_in(scene, ticks, first),
        forall|m: int| first < m < k ==> !#[trigger] throws_in(scene, ticks, m),
    ensures
        run(scene, ticks.take(k)).scientist.player.last_shot_time == ticks[first].now,
    decreases k - first,
{
    lemma_run_step(scene, ticks, k - 1);
    law_frame_throws_by_the_firing_rule(run(scene, ticks.take(k - 1)), ticks[k - 1]);
    if k - 1 > first {
        lemma_last_throw_remembered(scene, ticks, first, k - 1);
        assert(!throws_in(scene, ticks, k - 1));
    }
}

/// Throws in a run are spaced by the cooldown. If a bottle is thrown in one
/// frame of a run and the next bottle in a later frame, the clock of the
/// later frame is at least one cooldown past the clock of the earlier,
/// whatever the keys did and however long the frames were.
pub proof fn law_throws_in_a_run_are_spaced(
    scene: Scene,
    ticks: Seq<Tick>,
    first: int,
    next: int,
)
    requires
        0 <= first < next < ticks.len(),
        throws_in(scene, ticks, first),
        throws_in(scene, ticks, next),
        forall|m: int| first < m < next ==> !#[trigger] throws_in(scene, ticks, m),
    ensures
        ticks[next].now - ticks[first].now >= CHEMICAL_PROJECTILE_COOLDOWN,
{
    lemma_last_throw_remembered(scene, ticks, first, next);
    law_frame_throws_by_the_firing_rule(run(scene, ticks.take(next)), ticks[next]);
}

/// A bottle that leaves the window is never seen again: after every frame
/// no bottle in flight lies beyond the left or the right edge of the window.
pub proof fn law_no_bottle_beyond_window(scene: Scene, ticks: Seq<Tick>)
    requires
        ticks.len() > 0,
    ensures
        forall|i: int|
            0 <= i < run(scene, ticks).bottles.len() ==> !(#[trigger] run(
                scene,
                ticks,
            ).bottles[i]).gone(),
{
    law_cleanup_removes_what_left(launched(run(scene, ticks.drop_last()), ticks.last()));
}

/// Enemies never leave the window. If every enemy is on patrol inside the
/// window, and no frame is longer than an enemy takes to cover its own size,
/// then after any number of frames there are as many enemies as before and
/// every one of them is on patrol inside the window.
pub proof fn law_enemies_stay_in_window(scene: Scene, ticks: Seq<Tick>)
    requires
        forall|i: int| 0 <= i < scene.aliens.len() ==> patrolling(#[trigger] scene.aliens[i]),
        forall|k: int|
            0 <= k < ticks.len() ==> ENEMY_SPEED * (#[trigger] ticks[k]).delta <= ENEMY_SIZE,
    ensures
        run(scene, ticks).aliens.len() == scene.aliens.len(),
        forall|i: int|
            0 <= i < scene.aliens.len() ==> patrolling(#[trigger] run(scene, ticks).aliens[i]),
    decreases ticks.len(),
{
    if ticks.len() > 0 {
        law_enemies_stay_in_window(scene, ticks.drop_last());
    }
}

} // verus!
