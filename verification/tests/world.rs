use scienteer::background::{spawn_background, Background};
use scienteer::constants::{
    CHEMICAL_PROJECTILE_SPEED, GROUND_LEVEL, JUMP_FORCE, PLAYER_SPEED, VIRTUAL_HEIGHT,
    VIRTUAL_WIDTH, WINDOW_HEIGHT, WINDOW_WIDTH,
};
use scienteer::enemy::spawn_enemy;
use scienteer::geometry::{Sprite, Transform, Vec2};
use scienteer::keyboard::Controls;
use scienteer::player::spawn_player;
use scienteer::world::{setup, spawn_camera, Camera, FrameInput, World};

fn sine_millionths(phase: i64) -> i32 {
    ((phase as f64 / 1000.0).sin() * 1_000_000.0).round() as i32
}

fn input(world: &World, controls: Controls, delta: u32, now: i64) -> FrameInput {
    let mut sines: Vec<i32> = Vec::new();
    for enemy in &world.enemies {
        sines.push(sine_millionths(enemy.enemy.next_wave_phase(delta).unwrap()));
    }
    FrameInput { controls, delta, now, sines }
}

fn keys(left: bool, right: bool, jump: bool, fire: bool) -> Controls {
    Controls { left, right, jump, fire }
}

#[test]
fn the_window_and_the_virtual_resolution() {
    assert_eq!(WINDOW_WIDTH, 800_000_000);
    assert_eq!(WINDOW_HEIGHT, 600_000_000);
    assert_eq!(VIRTUAL_WIDTH, 320);
    assert_eq!(VIRTUAL_HEIGHT, 240);
}

#[test]
fn the_background_fills_the_virtual_resolution_behind_everything() {
    let background = spawn_background();
    assert_eq!(
        background,
        Background {
            transform: Transform {
                translation: Vec2 { x: 0, y: 0 },
                layer: -1,
                rotation: 0,
                mirrored: false,
            },
            sprite: Sprite { custom_size: Vec2 { x: 320_000_000, y: 240_000_000 }, flip_x: false },
        }
    );
}

#[test]
fn a_new_game_has_one_player_one_enemy_and_no_bottle() {
    let world = setup();
    assert_eq!(world.camera, Camera { width: 320, height: 240 });
    assert_eq!(world.camera, spawn_camera());
    assert_eq!(world.background, spawn_background());
    assert_eq!(world.player, spawn_player());
    assert_eq!(world.enemies, vec![spawn_enemy()]);
    assert!(world.projectiles.is_empty());
    assert_eq!(world.player.transform.translation, Vec2 { x: 0, y: GROUND_LEVEL });
    assert_eq!(world.enemies[0].transform.translation, Vec2 { x: -WINDOW_WIDTH / 2, y: 0 });
}

#[test]
fn an_idle_frame_leaves_the_player_on_the_ground() {
    let mut world = setup();
    let frame = input(&world, Controls::idle(), 100, 100);
    world.advance(&frame);
    assert_eq!(world.player, spawn_player());
    assert!(world.projectiles.is_empty());
    assert_eq!(world.background, spawn_background());
    assert_eq!(world.camera, spawn_camera());
}

#[test]
fn walking_right_for_a_second_covers_the_walking_speed() {
    let mut world = setup();
    let mut now = 0;
    for _ in 0..50 {
        now += 20;
        let frame = input(&world, keys(false, true, false, false), 20, now);
        world.advance(&frame);
    }
    assert_eq!(world.player.transform.translation, Vec2 { x: 100_000_000, y: GROUND_LEVEL });
    assert_eq!(world.player.velocity.speed, Vec2 { x: PLAYER_SPEED, y: 0 });
    assert!(world.player.player.facing_right);
}

#[test]
fn the_first_frame_of_a_jump() {
    let mut world = setup();
    let frame = input(&world, keys(false, false, true, false), 10, 10);
    world.advance(&frame);
    // Controller: jump force. Gravity: minus 800 a second squared for 10 ms.
    assert_eq!(world.player.velocity.speed.y, JUMP_FORCE - 8000);
    // Integrator: the new speed for 10 ms.
    assert_eq!(world.player.transform.translation.y, GROUND_LEVEL + 2_920_000);
    assert!(world.player.player.is_jumping);
}

#[test]
fn a_jump_goes_up_comes_down_and_never_sinks() {
    let mut world = setup();
    let mut now = 0;
    let mut highest = GROUND_LEVEL;
    let mut airborne_frames = 0;
    for frame_number in 0..200 {
        now += 10;
        let controls = keys(false, false, frame_number == 0, false);
        let frame = input(&world, controls, 10, now);
        world.advance(&frame);
        let y = world.player.transform.translation.y;
        assert!(y >= GROUND_LEVEL);
        if y > highest {
            highest = y;
        }
        if world.player.player.is_jumping {
            airborne_frames += 1;
        } else {
            assert_eq!(y, GROUND_LEVEL);
            assert_eq!(world.player.velocity.speed.y, 0);
        }
    }
    // Speed after frame k is 300 - 8k units a second; the climb ends after
    // frame 37, at the sum of those speeds times 10 ms.
    assert_eq!(highest, GROUND_LEVEL + 54_760_000);
    // Back on the ground in frame 74, seen as landed in frame 75.
    assert_eq!(airborne_frames, 74);
    assert!(!world.player.player.is_jumping);
}

#[test]
fn a_thrown_bottle_starts_at_the_player_and_spins_in_its_first_frame() {
    let mut world = setup();
    let frame = input(&world, keys(false, true, false, true), 100, 600);
    world.advance(&frame);
    assert_eq!(world.projectiles.len(), 1);
    let bottle = world.projectiles[0];
    // The player walked 10 units in this frame before it threw.
    assert_eq!(world.player.transform.translation.x, 10_000_000);
    assert_eq!(bottle.transform.translation, Vec2 { x: 10_000_000, y: GROUND_LEVEL });
    assert_eq!(bottle.velocity.speed, Vec2 { x: CHEMICAL_PROJECTILE_SPEED, y: 0 });
    assert_eq!(bottle.transform.rotation, 200);
    assert!(!bottle.sprite.flip_x);
    assert_eq!(world.player.player.last_shot_time, 600);
}

#[test]
fn a_bottle_thrown_left_flies_left() {
    let mut world = setup();
    let frame = input(&world, keys(true, false, false, true), 100, 600);
    world.advance(&frame);
    let bottle = world.projectiles[0];
    assert_eq!(bottle.velocity.speed, Vec2 { x: -CHEMICAL_PROJECTILE_SPEED, y: 0 });
    assert!(bottle.sprite.flip_x);
    let frame = input(&world, Controls::idle(), 100, 700);
    world.advance(&frame);
    assert_eq!(world.projectiles[0].transform.translation.x, -10_000_000 - 20_000_000);
    assert_eq!(world.projectiles[0].transform.rotation, 400);
}

#[test]
fn holding_fire_fills_the_air_and_cleanup_empties_it() {
    let mut world = setup();
    let mut now = 0;
    let mut thrown_at: Vec<i64> = Vec::new();
    let mut most = 0;
    for _ in 0..100 {
        let before = world.player.player.last_shot_time;
        let frame = input(&world, keys(false, false, false, true), 100, now);
        world.advance(&frame);
        if world.player.player.last_shot_time != before {
            thrown_at.push(now);
        }
        now += 100;
        for bottle in &world.projectiles {
            assert!(bottle.transform.translation.x <= WINDOW_WIDTH / 2);
            assert!(bottle.transform.translation.x >= -WINDOW_WIDTH / 2);
        }
        if world.projectiles.len() > most {
            most = world.projectiles.len();
        }
    }
    // The first throw comes in the first frame, at time zero.
    assert_eq!(thrown_at.len(), 17);
    assert_eq!(thrown_at[0], 0);
    assert_eq!(thrown_at[1], 600);
    assert_eq!(thrown_at[16], 9600);
    for pair in thrown_at.windows(2) {
        assert_eq!(pair[1] - pair[0], 600);
    }
    // A bottle lives 2.1 s and one is thrown every 0.6 s.
    assert_eq!(most, 4);
    // Let go of the key: the air empties.
    for _ in 0..25 {
        let frame = input(&world, Controls::idle(), 100, now);
        world.advance(&frame);
        now += 100;
    }
    assert!(world.projectiles.is_empty());
}

#[test]
fn bottles_stay_oldest_first() {
    let mut world = setup();
    let mut now = 0;
    for _ in 0..14 {
        let frame = input(&world, keys(false, false, false, true), 100, now);
        world.advance(&frame);
        now += 100;
    }
    // Thrown at 0, 0.6 and 1.2 s.
    assert_eq!(world.projectiles.len(), 3);
    for pair in world.projectiles.windows(2) {
        assert!(pair[0].transform.translation.x > pair[1].transform.translation.x);
        assert!(pair[0].transform.rotation > pair[1].transform.rotation);
    }
    assert_eq!(world.projectiles[0].transform.translation.x, 260_000_000);
    assert_eq!(world.projectiles[2].transform.translation.x, 20_000_000);
}

#[test]
fn fire_held_in_the_first_frame_of_a_new_game_throws_at_time_zero() {
    let mut world = setup();
    assert_eq!(world.player.player.last_shot_time, -600);
    let frame = input(&world, keys(false, false, false, true), 16, 0);
    assert!(world.can_advance(&frame));
    world.advance(&frame);
    assert_eq!(world.projectiles.len(), 1);
    assert_eq!(world.projectiles[0].transform.translation, Vec2 { x: 0, y: GROUND_LEVEL });
    assert_eq!(world.projectiles[0].velocity.speed, Vec2 { x: CHEMICAL_PROJECTILE_SPEED, y: 0 });
    assert_eq!(world.player.player.last_shot_time, 0);
    // Still held in the next frame: nothing until the cooldown is over.
    let frame = input(&world, keys(false, false, false, true), 16, 16);
    world.advance(&frame);
    assert_eq!(world.projectiles.len(), 1);
    assert_eq!(world.player.player.last_shot_time, 0);
}

#[test]
fn a_player_beyond_the_window_throws_bottles_that_are_removed_at_once() {
    let mut world = setup();
    world.player.transform.translation.x = 500_000_000;
    let frame = input(&world, keys(false, false, false, true), 16, 1000);
    world.advance(&frame);
    assert_eq!(world.player.player.last_shot_time, 1000);
    assert!(world.projectiles.is_empty());
}

#[test]
fn the_enemy_patrols_while_the_player_plays() {
    let mut world = setup();
    let mut now: i64 = 0;
    for frame_number in 0..3000u32 {
        now += 16;
        let jump = frame_number % 90 == 0;
        let controls = keys(frame_number % 7 == 0, frame_number % 5 == 0, jump, true);
        let frame = input(&world, controls, 16, now);
        world.advance(&frame);
        assert_eq!(world.enemies.len(), 1);
        let enemy = world.enemies[0];
        assert!(enemy.transform.translation.x >= -WINDOW_WIDTH / 2);
        assert!(enemy.transform.translation.x <= WINDOW_WIDTH / 2);
        assert_eq!(enemy.enemy.time, now);
        let expected = 50.0 * (2.0 * now as f64 / 1000.0).sin();
        let height = enemy.transform.translation.y as f64 / 1_000_000.0;
        assert!((height - expected).abs() < 0.0001);
        assert!(world.player.transform.translation.y >= GROUND_LEVEL);
    }
}

#[test]
fn a_world_without_enemies_needs_no_sines() {
    let mut world = setup();
    world.enemies.clear();
    let frame = FrameInput { controls: Controls::idle(), delta: 16, now: 16, sines: Vec::new() };
    world.advance(&frame);
    assert!(world.enemies.is_empty());
    assert_eq!(world.player, spawn_player());
}

#[test]
fn a_frame_on_a_new_game_can_always_be_computed() {
    let world = setup();
    let frame = input(&world, keys(true, true, true, true), u32::MAX, i64::MAX);
    assert!(world.can_advance(&frame));
}

#[test]
fn a_frame_needs_one_sine_for_each_enemy() {
    let world = setup();
    let none = FrameInput { controls: Controls::idle(), delta: 16, now: 16, sines: Vec::new() };
    assert!(!world.can_advance(&none));
    let two = FrameInput { controls: Controls::idle(), delta: 16, now: 16, sines: vec![0, 0] };
    assert!(!world.can_advance(&two));
    let one = FrameInput { controls: Controls::idle(), delta: 16, now: 16, sines: vec![0] };
    assert!(world.can_advance(&one));
}

#[test]
fn a_frame_that_would_carry_the_player_off_the_numbers_cannot_be_computed() {
    let mut world = setup();
    world.player.transform.translation.x = i64::MAX - 1_000_000;
    let walk_right = input(&world, keys(false, true, false, false), 16, 16);
    assert!(!world.can_advance(&walk_right));
    let walk_left = input(&world, keys(true, false, false, false), 16, 16);
    assert!(world.can_advance(&walk_left));
    world.advance(&walk_left);
    assert_eq!(world.player.transform.translation.x, i64::MAX - 2_600_000);
}

#[test]
fn a_frame_that_would_carry_a_bottle_off_the_numbers_cannot_be_computed() {
    let mut world = setup();
    let frame = input(&world, keys(false, false, false, true), 100, 600);
    world.advance(&frame);
    assert_eq!(world.projectiles.len(), 1);
    let next = input(&world, Controls::idle(), 100, 700);
    assert!(world.can_advance(&next));
    world.projectiles[0].transform.translation.x = i64::MAX;
    assert!(!world.can_advance(&next));
    // A bottle that leaves the window in this frame need not spin.
    world.projectiles[0].transform.translation.x = 399_000_000;
    world.projectiles[0].transform.rotation = i64::MAX;
    assert!(world.can_advance(&next));
    world.advance(&next);
    assert!(world.projectiles.is_empty());
    // One that stays must.
    let frame = input(&world, keys(false, false, false, true), 100, 1300);
    world.advance(&frame);
    world.projectiles[0].transform.rotation = i64::MAX;
    let next = input(&world, Controls::idle(), 100, 1400);
    assert!(!world.can_advance(&next));
}

#[test]
fn a_frame_that_would_run_an_enemy_clock_off_the_numbers_cannot_be_computed() {
    let mut world = setup();
    world.enemies[0].enemy.time = i64::MAX - 10;
    let short = FrameInput { controls: Controls::idle(), delta: 10, now: 0, sines: vec![0] };
    assert!(world.can_advance(&short));
    let long = FrameInput { controls: Controls::idle(), delta: 11, now: 0, sines: vec![0] };
    assert!(!world.can_advance(&long));
    world.advance(&short);
    assert_eq!(world.enemies[0].enemy.time, i64::MAX);
}

#[test]
fn each_entity_tells_whether_a_frame_can_store_it() {
    let world = setup();
    assert!(world.player.can_pass_frame(&Controls::idle(), 16));
    assert!(world.enemies[0].can_pass_frame(16, 1_000_000));
    let mut enemy = world.enemies[0];
    enemy.enemy.start_y = i64::MAX;
    assert!(!enemy.can_pass_frame(16, 1));
    assert!(enemy.can_pass_frame(16, 0));
    let mut player = world.player;
    player.transform.translation.y = 0;
    player.player.is_jumping = true;
    player.velocity.speed.y = i64::MIN;
    assert!(!player.can_pass_frame(&Controls::idle(), 16));
    assert!(player.can_pass_frame(&Controls::idle(), 0));
}
