use platformer::controller::{
    wander, Controller, KeyboardController, NoneController, RandomController,
};
use platformer::entity::body::PhysicalProperties;
use platformer::entity::blocks::DamageBlock;
use platformer::entity::creature::{Creature, CreatureAnimations};
use platformer::entity::{Entity, Object, Physics};
use platformer::fixed::Fixed;
use platformer::gmath::shapes::Rect;
use platformer::gmath::vectors::Vec2;
use platformer::map::TileMap;
use platformer::sprite::{Animation, Sprite, TextureId};
use platformer::tiles::{TileInfo, TileSet};

const S: i64 = 1_000_000;

fn fx(raw: i64) -> Fixed {
    Fixed::from_raw(raw)
}

fn animation(id: usize, frames: u32, frame_time: i64) -> Animation {
    Animation {
        id,
        sprite: Sprite {
            spritesheet: TextureId(1),
            offset: Vec2::new(0, 0),
            frame_width: 20,
            frame_height: 20,
            num_frames_x: frames,
            num_frames_y: 1,
        },
        frame_time: fx(frame_time),
        repeat: true,
    }
}

fn creature(x: i64, y: i64) -> Creature {
    Creature::new(
        Vec2::new(fx(x), fx(y)),
        Rect::new(fx(0), fx(0), fx(20 * S), fx(20 * S)),
        Rect::new(fx(0), fx(0), fx(20 * S), fx(20 * S)),
        PhysicalProperties {
            c_drag: fx(470_000),
            mass: fx(70 * S),
            cross_area: fx(760_000),
            max_vel_x: fx(9 * S),
            stop_bonus: fx(6 * S),
        },
        fx(6 * S),
        fx(5 * S),
        CreatureAnimations {
            idle: animation(0, 1, 0),
            walk: animation(1, 6, 700_000),
            jump: animation(2, 1, 600_000),
            fall: animation(3, 2, 500_000),
        },
    )
}

fn floor() -> TileMap {
    let mut tiles = Vec::new();
    for y in 0..10 {
        for _ in 0..10 {
            tiles.push(if y == 9 { 1 } else { 0 });
        }
    }
    TileMap {
        width: 10,
        height: 10,
        tiles,
        tileset: TileSet {
            tile_size: 32,
            sprite: TextureId(0),
            tile_info: vec![
                TileInfo { solid: false, friction: Fixed::zero() },
                TileInfo { solid: true, friction: Fixed::one() },
            ],
        },
    }
}

#[test]
fn a_new_creature_hangs_in_the_air() {
    let c = creature(100 * S, 50 * S);
    assert_eq!((c.acceleration().x.raw, c.acceleration().y.raw), (0, 9_800_000));
    assert_eq!((c.velocity().x.raw, c.velocity().y.raw), (0, 0));
    assert_eq!((c.position().x.raw, c.position().y.raw), (100 * S, 50 * S));
    assert!(!c.is_on_ground());
    assert!(!c.body.hit_wall);
    assert_eq!(c.animation_player.animation.id, 0);
    assert_eq!(c.get_properties().mass.raw, 70 * S);
    let b = c.bounds();
    assert_eq!((b.x.raw, b.y.raw, b.width.raw, b.height.raw), (100 * S, 50 * S, 20 * S, 20 * S));
    let m = c.center();
    assert_eq!((m.x.raw, m.y.raw), (110 * S, 60 * S));
}

#[test]
fn setters_change_one_thing_each() {
    let mut c = creature(100 * S, 50 * S);
    c.set_velocity(Vec2::new(fx(1), fx(2)));
    c.set_acceleration(Vec2::new(fx(3), fx(4)));
    c.set_position(Vec2::new(fx(5), fx(6)));
    c.set_on_ground(true);
    c.set_hit_wall(true);
    assert_eq!((c.body.velocity.x.raw, c.body.velocity.y.raw), (1, 2));
    assert_eq!((c.body.acceleration.x.raw, c.body.acceleration.y.raw), (3, 4));
    assert_eq!((c.body.position.x.raw, c.body.position.y.raw), (5, 6));
    assert!(c.body.on_ground);
    assert!(c.body.hit_wall);
    assert_eq!(c.move_accel.raw, 6 * S);
}

#[test]
fn keys_push_a_creature_on_the_ground() {
    let mut c = creature(100 * S, 50 * S);
    c.set_on_ground(true);
    let mut keys = KeyboardController::new();
    keys.left = true;
    keys.update(&mut c, fx(16_667));
    assert_eq!((c.acceleration().x.raw, c.acceleration().y.raw), (-6 * S, 9_800_000));
    keys.left = false;
    keys.right = true;
    keys.update(&mut c, fx(16_667));
    assert_eq!(c.acceleration().x.raw, 6 * S);
    keys.right = false;
    keys.update(&mut c, fx(16_667));
    assert_eq!(c.acceleration().x.raw, 0);
    assert_eq!((c.velocity().x.raw, c.velocity().y.raw), (0, 0));
}

#[test]
fn keys_push_less_in_the_air() {
    let mut c = creature(100 * S, 50 * S);
    let mut keys = KeyboardController::new();
    keys.right = true;
    keys.update(&mut c, fx(16_667));
    assert_eq!(c.acceleration().x.raw, 3_600_000);
    keys.left = true;
    keys.update(&mut c, fx(16_667));
    assert_eq!(c.acceleration().x.raw, -3_600_000);
}

#[test]
fn a_creature_jumps_off_the_ground_only() {
    let mut c = creature(100 * S, 50 * S);
    let mut keys = KeyboardController::new();
    keys.up = true;
    keys.update(&mut c, fx(16_667));
    assert_eq!(c.velocity().y.raw, 0);
    c.set_on_ground(true);
    keys.update(&mut c, fx(16_667));
    assert_eq!((c.velocity().x.raw, c.velocity().y.raw), (0, -5 * S));
    assert_eq!((c.position().x.raw, c.position().y.raw), (100 * S, 50 * S));
}

#[test]
fn a_roll_says_where_to_wander() {
    let mut c = creature(100 * S, 50 * S);
    wander(&mut c, fx(400_000));
    assert_eq!(c.acceleration().x.raw, 0);
    wander(&mut c, fx(600_000));
    assert_eq!(c.acceleration().x.raw, 6 * S);
    wander(&mut c, fx(800_000));
    assert_eq!(c.acceleration().x.raw, -6 * S);
    wander(&mut c, fx(499_999));
    assert_eq!(c.acceleration().x.raw, 0);
    wander(&mut c, fx(500_000));
    assert_eq!(c.acceleration().x.raw, 6 * S);
    wander(&mut c, fx(749_999));
    assert_eq!(c.acceleration().x.raw, 6 * S);
    wander(&mut c, fx(750_000));
    assert_eq!(c.acceleration().x.raw, -6 * S);
    assert_eq!(c.acceleration().y.raw, 9_800_000);
}

#[test]
fn the_random_controller_waits_for_its_time() {
    let mut c = creature(100 * S, 50 * S);
    c.set_acceleration(Vec2::new(fx(123), fx(9_800_000)));
    let mut random = RandomController::new(fx(500_000));
    assert_eq!(random.move_time.raw, 500_000);
    assert_eq!(random.wait_time.raw, 0);
    random.update(&mut c, fx(300_000));
    assert_eq!(random.wait_time.raw, 300_000);
    assert_eq!(c.acceleration().x.raw, 123);
    random.update(&mut c, fx(200_000));
    assert_eq!(random.wait_time.raw, 500_000);
    assert_eq!(c.acceleration().x.raw, 123);
    random.update(&mut c, fx(100_000));
    assert_eq!(random.wait_time.raw, 100_000);
    let x = c.acceleration().x.raw;
    assert!(x == 0 || x == 6 * S || x == -6 * S);
    assert_eq!(c.acceleration().y.raw, 9_800_000);
}

#[test]
fn the_random_controller_wanders_every_way() {
    let mut c = creature(100 * S, 50 * S);
    let mut random = RandomController::new(fx(500_000));
    let mut stood = 0;
    let mut right = 0;
    let mut left = 0;
    for _ in 0..400 {
        random.update(&mut c, fx(600_000));
        let x = c.acceleration().x.raw;
        if x == 0 {
            stood += 1;
        } else if x == 6 * S {
            right += 1;
        } else {
            assert_eq!(x, -6 * S);
            left += 1;
        }
    }
    assert!(stood > 0);
    assert!(right > 0);
    assert!(left > 0);
    assert_eq!(stood + right + left, 400);
}

#[test]
fn no_controller_changes_nothing() {
    let mut c = creature(100 * S, 50 * S);
    c.set_velocity(Vec2::new(fx(7), fx(8)));
    let mut none = NoneController::<Creature>::new();
    none.update(&mut c, fx(16_667));
    assert_eq!((c.velocity().x.raw, c.velocity().y.raw), (7, 8));
    assert_eq!((c.acceleration().x.raw, c.acceleration().y.raw), (0, 9_800_000));
}

#[test]
fn an_entity_is_steered_and_then_moved() {
    let map = floor();
    let mut keys = KeyboardController::new();
    keys.right = true;
    let mut entity = Entity { object: creature(100 * S, 50 * S), controller: keys };
    assert!(platformer::entity::can_step(&entity.object.body, &map));
    entity.update(&map, fx(16_667));
    let body = entity.object.body;
    assert_eq!((body.acceleration.x.raw, body.acceleration.y.raw), (3_600_000, 9_800_000));
    assert_eq!((body.velocity.x.raw, body.velocity.y.raw), (60_001, 163_336));
    assert_eq!((body.position.x.raw, body.position.y.raw), (100_052_000, 50_141_544));
    assert!(!body.on_ground);
    // it moves down: the fall animation plays, looking right
    assert_eq!(entity.object.animation_player.animation.id, 3);
    assert!(!entity.object.animation_player.flip_x);
}

#[test]
fn a_creature_shows_what_it_does() {
    let map = floor();
    // lands: on the ground, not pushed, not moving
    let mut c = creature(100 * S, 260 * S);
    c.body.acceleration = Vec2::new(fx(0), fx(9_800_000));
    c.body.velocity = Vec2::new(fx(0), fx(5 * S));
    c.body.properties.c_drag = fx(0);
    c.update(&map, fx(100_000));
    assert!(c.body.on_ground);
    assert_eq!(c.body.position.y.raw, 268 * S);
    assert_eq!(c.animation_player.animation.id, 0);
    // walks to the right, the faster the quicker
    c.body.acceleration = Vec2::new(fx(6 * S), fx(9_800_000));
    c.body.velocity = Vec2::new(fx(2 * S), fx(0));
    c.body.properties.c_drag = fx(470_000);
    c.update(&map, fx(16_667));
    assert_eq!(c.body.velocity.x.raw, 2_099_798);
    assert_eq!(c.body.position.x.raw, 101_819_844);
    assert_eq!(c.animation_player.animation.id, 1);
    assert_eq!(c.animation_player.speed_up.raw, 476_236);
    assert!(!c.animation_player.flip_x);
    // pushed to the left it looks left
    c.body.acceleration = Vec2::new(fx(-6 * S), fx(9_800_000));
    c.update(&map, fx(16_667));
    assert!(c.animation_player.flip_x);
    // rising in the air it jumps
    c.body.velocity = Vec2::new(fx(0), fx(-5 * S));
    c.update(&map, fx(16_667));
    assert!(!c.body.on_ground);
    assert_eq!(c.animation_player.animation.id, 2);
}

#[test]
fn a_creature_is_drawn_where_the_camera_sees_it() {
    let c = creature(100 * S, 50 * S);
    let blit = c.draw(Vec2::new(fx(30 * S), fx(60 * S)));
    assert_eq!((blit.x.raw, blit.y.raw), (70 * S, -10 * S));
    assert_eq!(blit.texture, TextureId(1));
}

#[test]
fn a_block_stays_and_plays_its_animation() {
    let map = floor();
    let mut block = DamageBlock::new(
        Rect::new(fx(100 * S), fx(800 * S), fx(32 * S), fx(32 * S)),
        fx(S),
        animation(8, 5, 60_000),
    );
    assert_eq!((block.position().x.raw, block.position().y.raw), (100 * S, 800 * S));
    assert_eq!(block.bounds().width.raw, 32 * S);
    block.update(&map, fx(130_000));
    assert_eq!(block.animation_player.frame.x, 2);
    assert_eq!(block.animation_player.wait_time.raw, 10_000);
    assert_eq!((block.position().x.raw, block.position().y.raw), (100 * S, 800 * S));
    block.set_position(Vec2::new(fx(S), fx(2 * S)));
    assert_eq!((block.block_rect.x.raw, block.block_rect.y.raw), (S, 2 * S));
    assert_eq!((block.block_rect.width.raw, block.block_rect.height.raw), (32 * S, 32 * S));
    let blit = block.draw(Vec2::new(fx(0), fx(S)));
    assert_eq!((blit.x.raw, blit.y.raw), (S, S));
    assert_eq!(blit.source.unwrap().x.raw, 40 * S);
}
