use platformer::bitfont::BitFont;
use platformer::entity::can_step;
use platformer::fixed::Fixed;
use platformer::game::{create_cat, create_lava_block, create_player, tile_kinds, Game, Textures};
use platformer::gmath::vectors::Vec2;
use platformer::keyboard::KeyboardState;
use platformer::map::MapError;
use platformer::sprite::TextureId;
use platformer::timer::Timer;
use std::collections::HashMap;

const S: i64 = 1_000_000;

fn fx(raw: i64) -> Fixed {
    Fixed::from_raw(raw)
}

fn textures() -> Textures {
    Textures {
        tileset: TextureId(0),
        player: TextureId(1),
        cat: TextureId(2),
        lava: TextureId(3),
        background: TextureId(4),
        font: TextureId(5),
    }
}

/// A map of 20 by 30 tiles whose last row is solid.
fn map_file() -> Vec<u8> {
    let mut bytes = vec![0x4d, 0x41, 0x50, 1];
    bytes.extend_from_slice(&20u32.to_le_bytes());
    bytes.extend_from_slice(&30u32.to_le_bytes());
    for y in 0..30 {
        for _ in 0..20 {
            let id: u16 = if y == 29 { 1 } else { 0 };
            bytes.extend_from_slice(&id.to_le_bytes());
        }
    }
    bytes
}

#[test]
fn text_is_set_letter_by_letter() {
    let font = BitFont::new(32, 96, 8, 9, TextureId(5));
    let blits = font.draw_text(Vec2::new(fx(10 * S), fx(20 * S)), "A\nB\r!");
    assert_eq!(blits.len(), 3);
    assert_eq!((blits[0].x.raw, blits[0].y.raw), (10 * S, 20 * S));
    assert_eq!(blits[0].source.unwrap().x.raw, 33 * 8 * S);
    assert_eq!((blits[1].x.raw, blits[1].y.raw), (10 * S, 29 * S));
    assert_eq!(blits[1].source.unwrap().x.raw, 34 * 8 * S);
    assert_eq!((blits[2].x.raw, blits[2].y.raw), (18 * S, 29 * S));
    assert_eq!(blits[2].source.unwrap().x.raw, 8 * S);
    assert_eq!(blits[2].source.unwrap().width.raw, 8 * S);
    assert_eq!(blits[2].source.unwrap().height.raw, 9 * S);
    assert_eq!(blits[2].texture, TextureId(5));
    assert!(font.draw_text(Vec2::new(fx(0), fx(0)), "").is_empty());
    assert!(font.draw_text(Vec2::new(fx(0), fx(0)), "\n\r\n").is_empty());
}

#[test]
fn a_timer_measures_from_its_start() {
    let mut timer = Timer::new(100);
    assert_eq!(timer.elapsed(100), 0);
    assert_eq!(timer.elapsed(350), 250);
    assert_eq!(timer.elapsed_seconds(350, 1000).raw, 250_000);
    assert_eq!(timer.elapsed_seconds(101, 3).raw, 333_333);
    timer.reset(400);
    assert_eq!(timer.last, 400);
    assert_eq!(timer.elapsed(1400), 1000);
}

#[test]
fn a_key_is_new_when_it_was_up_before() {
    let mut up = HashMap::new();
    up.insert(4u32, false);
    up.insert(5u32, true);
    let mut down = HashMap::new();
    down.insert(4u32, true);
    down.insert(5u32, true);
    let mut keys = KeyboardState::new(up.clone(), up.clone());
    assert!(!keys.is_keydown(4));
    assert!(keys.is_keydown(5));
    assert!(!keys.is_new_keypress(4));
    assert!(!keys.is_new_keypress(5));
    keys.update(down.clone());
    assert!(keys.is_keydown(4));
    assert!(keys.is_new_keypress(4));
    assert!(!keys.is_new_keypress(5));
    keys.update(down);
    assert!(keys.is_keydown(4));
    assert!(!keys.is_new_keypress(4));
    keys.update(up);
    assert!(!keys.is_keydown(4));
    assert!(!keys.is_new_keypress(4));
}

#[test]
fn there_is_one_empty_kind_of_tile() {
    let kinds = tile_kinds();
    assert_eq!(kinds.len(), 34);
    assert!(!kinds[0].solid);
    assert_eq!(kinds[0].friction.raw, 0);
    for kind in &kinds[1..] {
        assert!(kind.solid);
        assert_eq!(kind.friction.raw, S);
    }
}

#[test]
fn the_player_is_a_person() {
    let e = create_player(Vec2::new(fx(50 * S), fx(50 * S)), TextureId(1), 10);
    let c = e.object;
    assert_eq!(c.body.properties.c_drag.raw, 470_000);
    assert_eq!(c.body.properties.mass.raw, 70 * S);
    assert_eq!(c.body.properties.cross_area.raw, 760_000);
    assert_eq!(c.body.properties.max_vel_x.raw, 9 * S);
    assert_eq!(c.body.properties.stop_bonus.raw, 6 * S);
    assert_eq!((c.move_accel.raw, c.jump_accel.raw), (6 * S, 5 * S));
    let b = c.body.bounds_offset;
    assert_eq!((b.x.raw, b.y.raw, b.width.raw, b.height.raw), (14 * S, 36 * S, 32 * S, 92 * S));
    assert_eq!(c.animations.idle.id, 10);
    assert_eq!(c.animations.walk.id, 11);
    assert_eq!(c.animations.jump.id, 12);
    assert_eq!(c.animations.fall.id, 13);
    assert_eq!((c.animations.walk.sprite.offset.x, c.animations.walk.sprite.offset.y), (64, 0));
    assert_eq!(c.animations.walk.sprite.num_frames_x, 6);
    assert_eq!(c.animations.walk.frame_time.raw, 700_000);
    assert_eq!((c.animations.jump.sprite.offset.x, c.animations.jump.sprite.offset.y), (448, 128));
    assert_eq!((c.animations.fall.sprite.offset.x, c.animations.fall.sprite.offset.y), (512, 128));
    assert_eq!(c.animations.fall.sprite.num_frames_x, 2);
    assert_eq!(c.animations.idle.frame_time.raw, 0);
    assert!(c.animations.idle.repeat);
    assert!(!e.controller.left && !e.controller.right && !e.controller.up);
}

#[test]
fn the_cat_is_small_and_slow() {
    let e = create_cat(Vec2::new(fx(400 * S), fx(50 * S)), TextureId(2), 4);
    let c = e.object;
    assert_eq!(c.body.properties.max_vel_x.raw, 4 * S);
    let b = c.body.bounds_offset;
    assert_eq!((b.x.raw, b.y.raw, b.width.raw, b.height.raw), (2 * S, 2 * S, 38 * S, 30 * S));
    assert_eq!((c.animations.walk.sprite.offset.x, c.animations.walk.sprite.offset.y), (0, 32));
    assert_eq!(c.animations.walk.sprite.frame_width, 40);
    assert_eq!(c.animations.walk.sprite.frame_height, 32);
    assert_eq!(c.animations.fall.id, 7);
    assert_eq!(e.controller.move_time.raw, 500_000);
}

#[test]
fn lava_is_one_tile_large() {
    let e = create_lava_block(Vec2::new(fx(100 * S), fx(800 * S)), TextureId(3), 8);
    let r = e.object.block_rect;
    assert_eq!((r.x.raw, r.y.raw, r.width.raw, r.height.raw), (100 * S, 800 * S, 32 * S, 32 * S));
    assert_eq!(e.object.damage.raw, S);
    assert_eq!(e.object.animation_player.animation.sprite.num_frames_x, 5);
    assert_eq!(e.object.animation_player.animation.frame_time.raw, 60_000);
    assert_eq!(e.object.animation_player.animation.id, 8);
}

#[test]
fn the_world_is_made_from_a_map_file() {
    let game = Game::new(&map_file(), textures()).unwrap();
    assert_eq!((game.map.width, game.map.height), (20, 30));
    assert_eq!(game.map.tile_size(), 32);
    assert!(game.map.is_wf());
    assert_eq!(game.lava.len(), 3);
    assert_eq!(game.lava[1].object.block_rect.x.raw, 132 * S);
    assert_eq!(game.lava[2].object.block_rect.x.raw, 164 * S);
    assert_eq!(game.lava[2].object.animation_player.animation.id, 10);
    assert_eq!(game.player.object.body.position.x.raw, 50 * S);
    assert_eq!(game.cat.object.body.position.x.raw, 400 * S);
    assert_eq!(game.cat.object.animations.idle.id, 4);
    assert_eq!(game.font.ascii_offset, 32);
    assert_eq!(game.font.sprite.num_frames_x, 96);
    assert_eq!((game.camera.x.raw, game.camera.y.raw), (0, 0));
    assert_eq!(game.background, TextureId(4));
}

#[test]
fn a_broken_map_file_makes_no_world() {
    let mut bytes = map_file();
    bytes.truncate(100);
    assert_eq!(
        Game::new(&bytes, textures()).err(),
        Some(MapError::Tiles { expected: 1200, found: 88 })
    );
    assert_eq!(Game::new(&[1, 2, 3], textures()).err(), Some(MapError::Header));
}

#[test]
fn the_world_goes_on() {
    let mut game = Game::new(&map_file(), textures()).unwrap();
    assert!(can_step(&game.player.object.body, &game.map));
    assert!(can_step(&game.cat.object.body, &game.map));
    game.update(fx(16_667));
    let player = game.player.object.body;
    assert_eq!((player.position.x.raw, player.position.y.raw), (50 * S, 50_141_544));
    assert_eq!((player.velocity.x.raw, player.velocity.y.raw), (0, 163_336));
    let cat = game.cat.object.body;
    assert_eq!((cat.position.x.raw, cat.position.y.raw), (400 * S, 50_141_544));
    assert_eq!(game.lava[0].object.animation_player.wait_time.raw, 16_667);
    assert_eq!(game.lava[0].object.block_rect.y.raw, 800 * S);
    assert_eq!(game.lava.len(), 3);
}

#[test]
fn the_world_is_drawn_around_the_player() {
    let mut game = Game::new(&map_file(), textures()).unwrap();
    let blits = game.draw(fx(800 * S), fx(600 * S), "Hi\nyou");
    // the middle of the player is at (80, 132)
    assert_eq!((game.camera.x.raw, game.camera.y.raw), (-320 * S, -168 * S));
    assert_eq!(blits.len(), 1 + 600 + 5 + 5);
    assert_eq!(blits[0].texture, TextureId(4));
    assert!(blits[0].source.is_none());
    assert!(blits[0].dest_size.is_none());
    assert_eq!((blits[0].x.raw, blits[0].y.raw), (0, 0));
    // the first tile
    assert_eq!(blits[1].texture, TextureId(0));
    assert_eq!((blits[1].x.raw, blits[1].y.raw), (320 * S, 168 * S));
    // the last tile of the first column is solid
    assert_eq!(blits[30].source.unwrap().x.raw, 32 * S);
    assert_eq!((blits[30].x.raw, blits[30].y.raw), (320 * S, (168 + 29 * 32) * S));
    // the player, the cat, the lava
    assert_eq!(blits[601].texture, TextureId(1));
    assert_eq!((blits[601].x.raw, blits[601].y.raw), (370 * S, 218 * S));
    assert_eq!(blits[602].texture, TextureId(2));
    assert_eq!((blits[602].x.raw, blits[602].y.raw), (720 * S, 218 * S));
    assert_eq!(blits[603].texture, TextureId(3));
    assert_eq!((blits[605].x.raw, blits[605].y.raw), (484 * S, 968 * S));
    // the text, in the corner of the screen
    assert_eq!(blits[606].texture, TextureId(5));
    assert_eq!((blits[606].x.raw, blits[606].y.raw), (0, 0));
    assert_eq!((blits[608].x.raw, blits[608].y.raw), (0, 9 * S));
    assert_eq!((blits[610].x.raw, blits[610].y.raw), (16 * S, 9 * S));
}
