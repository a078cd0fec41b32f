//! The world: a map, the creatures and blocks in it, and the camera.

use crate::bitfont::BitFont;
use crate::controller::{KeyboardController, NoneController, RandomController};
use crate::entity::blocks::DamageBlock;
use crate::entity::body::PhysicalProperties;
use crate::entity::creature::{Creature, CreatureAnimations};
use crate::entity::{stepped, Entity, Object};
use crate::fixed::Fixed;
use crate::gmath::shapes::Rect;
use crate::gmath::vectors::Vec2;
use crate::map::{MapError, TileMap};
use crate::sprite::{Animation, Blit, Sprite, TextureId};
use crate::tiles::{TileInfo, TileSet};
use vstd::prelude::*;
use vstd::string::StringSliceAdditionalSpecFns;

verus! {

/// The textures that the world is drawn from.
#[derive(Clone, Copy, Debug)]
pub struct Textures {
    pub tileset: TextureId,
    pub player: TextureId,
    pub cat: TextureId,
    pub lava: TextureId,
    pub background: TextureId,
    pub font: TextureId,
}

/// Number of kinds of tile: empty space, and the solid ones.
pub const TILE_KINDS: usize = 34;

/// Edge length of a tile in pixels.
pub const TILE_SIZE: i32 = 32;

/// Number of lava blocks in the world.
pub const LAVA_BLOCKS: usize = 3;

/// The world of the game.
pub struct Game {
    pub map: TileMap,
    pub player: Entity<Creature, KeyboardController>,
    pub cat: Entity<Creature, RandomController>,
    pub lava: Vec<Entity<DamageBlock, NoneController<DamageBlock>>>,
    pub font: BitFont,
    pub camera: Vec2<Fixed>,
    pub background: TextureId,
}

/// A repeating animation of `frames` frames side by side, each `width` by
/// `height` pixels, the first at `(x, y)` on `spritesheet`. A frame is shown
/// for `frame_time` millionths of a second.
pub open spec fn strip_spec(
    id: usize,
    spritesheet: TextureId,
    x: u32,
    y: u32,
    width: u32,
    height: u32,
    frames: u32,
    frame_time: i64,
) -> Animation {
    Animation {
        id,
        sprite: Sprite {
            spritesheet,
            offset: Vec2 { x, y },
            frame_width: width,
            frame_height: height,
            num_frames_x: frames,
            num_frames_y: 1,
        },
        repeat: true,
        frame_time: Fixed { raw: frame_time },
    }
}

/// Creates a repeating animation of frames side by side.
#[verifier::when_used_as_spec(strip_spec)]
pub fn strip(
    id: usize,
    spritesheet: TextureId,
    x: u32,
    y: u32,
    width: u32,
    height: u32,
    frames: u32,
    frame_time: i64,
) -> (a: Animation)
    ensures
        a == strip_spec(id, spritesheet, x, y, width, height, frames, frame_time),
{
    Animation {
        id,
        sprite: Sprite {
            spritesheet,
            offset: Vec2::new(x, y),
            frame_width: width,
            frame_height: height,
            num_frames_x: frames,
            num_frames_y: 1,
        },
        repeat: true,
        frame_time: Fixed { raw: frame_time },
    }
}

/// What creatures are made of: a person's drag, mass and size, and the
/// given top speed.
pub open spec fn flesh_spec(max_vel_x: i64) -> PhysicalProperties {
    PhysicalProperties {
        c_drag: Fixed { raw: 470_000 },
        mass: Fixed { raw: 70_000_000 },
        cross_area: Fixed { raw: 760_000 },
        max_vel_x: Fixed { raw: max_vel_x },
        stop_bonus: Fixed { raw: 6_000_000 },
    }
}

/// The player's creature at `position`: 64 by 128 pixels, with a top speed
/// of 9 m/s. Its four animations take the ids from `first_id` on.
pub open spec fn player_spec(position: Vec2<Fixed>, spritesheet: TextureId, first_id: usize) -> Creature {
    Creature::new(
        position,
        Rect {
            x: Fixed::from_int(14),
            y: Fixed::from_int(36),
            width: Fixed::from_int(32),
            height: Fixed::from_int(92),
        },
        Rect {
            x: Fixed::from_int(0),
            y: Fixed::from_int(0),
            width: Fixed::from_int(32),
            height: Fixed::from_int(32),
        },
        flesh_spec(9_000_000),
        Fixed::from_int(6),
        Fixed::from_int(5),
        CreatureAnimations {
            idle: strip(first_id, spritesheet, 0, 0, 64, 128, 1, 0),
            walk: strip((first_id + 1) as usize, spritesheet, 64, 0, 64, 128, 6, 700_000),
            jump: strip((first_id + 2) as usize, spritesheet, 448, 128, 64, 128, 1, 600_000),
            fall: strip((first_id + 3) as usize, spritesheet, 512, 128, 64, 128, 2, 500_000),
        },
    )
}

/// The cat at `position`: 40 by 32 pixels, with a top speed of 4 m/s. Its
/// four animations take the ids from `first_id` on.
pub open spec fn cat_spec(position: Vec2<Fixed>, spritesheet: TextureId, first_id: usize) -> Creature {
    Creature::new(
        position,
        Rect {
            x: Fixed::from_int(2),
            y: Fixed::from_int(2),
            width: Fixed::from_int(38),
            height: Fixed::from_int(30),
        },
        Rect {
            x: Fixed::from_int(0),
            y: Fixed::from_int(0),
            width: Fixed::from_int(32),
            height: Fixed::from_int(32),
        },
        flesh_spec(4_000_000),
        Fixed::from_int(6),
        Fixed::from_int(5),
        CreatureAnimations {
            idle: strip(first_id, spritesheet, 0, 0, 40, 32, 1, 0),
            walk: strip((first_id + 1) as usize, spritesheet, 0, 32, 40, 32, 6, 700_000),
            jump: strip((first_id + 2) as usize, spritesheet, 0, 0, 40, 32, 1, 600_000),
            fall: strip((first_id + 3) as usize, spritesheet, 0, 0, 40, 32, 1, 500_000),
        },
    )
}

/// A lava block at `pos`: one tile large, with five frames of animation.
pub open spec fn lava_spec(pos: Vec2<Fixed>, spritesheet: TextureId, id: usize) -> DamageBlock {
    DamageBlock {
        block_rect: Rect {
            x: pos.x,
            y: pos.y,
            width: Fixed::from_int(32),
            height: Fixed::from_int(32),
        },
        damage: Fixed::from_int(1),
        animation_player: crate::sprite::AnimationPlayer::new(
            strip(id, spritesheet, 0, 0, 32, 32, 5, 60_000),
        ),
    }
}

fn flesh(max_vel_x: i64) -> (p: PhysicalProperties)
    ensures
        p == flesh_spec(max_vel_x),
{
    PhysicalProperties {
        c_drag: Fixed { raw: 470_000 },
        mass: Fixed { raw: 70_000_000 },
        cross_area: Fixed { raw: 760_000 },
        max_vel_x: Fixed { raw: max_vel_x },
        stop_bonus: Fixed { raw: 6_000_000 },
    }
}

fn whole_rect(x: i64, y: i64, width: i64, height: i64) -> (r: Rect)
    ensures
        r == (Rect {
            x: Fixed::from_int(x),
            y: Fixed::from_int(y),
            width: Fixed::from_int(width),
            height: Fixed::from_int(height),
        }),
{
    Rect::new(
        Fixed::from_int(x),
        Fixed::from_int(y),
        Fixed::from_int(width),
        Fixed::from_int(height),
    )
}

/// Creates the player at `position`, steered by the keyboard.
pub fn create_player(position: Vec2<Fixed>, spritesheet: TextureId, first_id: usize) -> (e: Entity<
    Creature,
    KeyboardController,
>)
    requires
        first_id + 3 <= usize::MAX,
    ensures
        e.object == player_spec(position, spritesheet, first_id),
        e.controller == (KeyboardController { left: false, right: false, up: false }),
{
    let fw: u32 = 64;
    let fh: u32 = 128;
    let idle = strip(first_id, spritesheet, 0, 0, fw, fh, 1, 0);
    let walk = strip(first_id + 1, spritesheet, 1 * fw, 0, fw, fh, 6, 700_000);
    let jump = strip(first_id + 2, spritesheet, 7 * fw, 1 * fh, fw, fh, 1, 600_000);
    let fall = strip(first_id + 3, spritesheet, 8 * fw, 1 * fh, fw, fh, 2, 500_000);
    Entity {
        object: Creature::new(
            position,
            whole_rect(14, 36, 32, 92),
            whole_rect(0, 0, 32, 32),
            flesh(9_000_000),
            Fixed::from_int(6),
            Fixed::from_int(5),
            CreatureAnimations { idle, walk, jump, fall },
        ),
        controller: KeyboardController::new(),
    }
}

/// Creates the cat at `position`, which wanders at random and makes up its
/// mind every half second.
pub fn create_cat(position: Vec2<Fixed>, spritesheet: TextureId, first_id: usize) -> (e: Entity<
    Creature,
    RandomController,
>)
    requires
        first_id + 3 <= usize::MAX,
    ensures
        e.object == cat_spec(position, spritesheet, first_id),
        e.controller.move_time == (Fixed { raw: 500_000 }),
        e.controller.wait_time == Fixed::zero(),
{
    let fw: u32 = 40;
    let fh: u32 = 32;
    let idle = strip(first_id, spritesheet, 0, 0, fw, fh, 1, 0);
    let walk = strip(first_id + 1, spritesheet, 0, fh, fw, fh, 6, 700_000);
    let jump = strip(first_id + 2, spritesheet, 0, 0, fw, fh, 1, 600_000);
    let fall = strip(first_id + 3, spritesheet, 0, 0, fw, fh, 1, 500_000);
    Entity {
        object: Creature::new(
            position,
            whole_rect(2, 2, 38, 30),
            whole_rect(0, 0, 32, 32),
            flesh(4_000_000),
            Fixed::from_int(6),
            Fixed::from_int(5),
            CreatureAnimations { idle, walk, jump, fall },
        ),
        controller: RandomController::new(Fixed { raw: 500_000 }),
    }
}

/// Creates a lava block at `pos`, which nothing steers.
pub fn create_lava_block(pos: Vec2<Fixed>, spritesheet: TextureId, id: usize) -> (e: Entity<
    DamageBlock,
    NoneController<DamageBlock>,
>)
    ensures
        e.object == lava_spec(pos, spritesheet, id),
{
    let lava_animation = strip(id, spritesheet, 0, 0, 32, 32, 5, 60_000);
    Entity {
        object: DamageBlock::new(
            Rect::new(pos.x, pos.y, Fixed::from_int(32), Fixed::from_int(32)),
            Fixed::from_int(1),
            lava_animation,
        ),
        controller: NoneController::<DamageBlock>::new(),
    }
}

/// The kinds of tile of the world: kind 0 is empty space, and each of the
/// others is solid with a friction of 1.
pub open spec fn tile_kinds_spec() -> Seq<TileInfo> {
    Seq::new(
        TILE_KINDS as nat,
        |i: int|
            if i == 0 {
                TileInfo { solid: false, friction: Fixed::zero() }
            } else {
                TileInfo { solid: true, friction: Fixed::one() }
            },
    )
}

/// Makes the table of the kinds of tile of the world.
pub fn tile_kinds() -> (kinds: Vec<TileInfo>)
    ensures
        kinds@ == tile_kinds_spec(),
{
    let mut kinds: Vec<TileInfo> = Vec::new();
    kinds.push(TileInfo { solid: false, friction: Fixed::zero() });
    while kinds.len() < TILE_KINDS
        invariant
            1 <= kinds@.len() <= TILE_KINDS,
            forall|i: int| 0 <= i < kinds@.len() ==> kinds@[i] == tile_kinds_spec()[i],
        decreases TILE_KINDS - kinds@.len(),
    {
        kinds.push(TileInfo { solid: true, friction: Fixed::one() });
    }
    assert(kinds@ =~= tile_kinds_spec());
    kinds
}

impl Game {
    /// The world has its three lava blocks.
    pub open spec fn wf(&self) -> bool {
        self.lava@.len() == LAVA_BLOCKS
    }

    /// Every object of the world can be updated.
    pub open spec fn can_update(&self) -> bool {
        &&& self.wf()
        &&& self.player.object.can_update(&self.map)
        &&& self.cat.object.can_update(&self.map)
    }

    /// Every part of the world can be drawn, and the font can set `text`.
    pub open spec fn can_draw(&self, text: Seq<u8>) -> bool {
        &&& self.wf()
        &&& self.map.wf()
        &&& self.map.can_draw()
        &&& self.map.tileset.tile_size > 0
        &&& self.player.object.drawable()
        &&& self.cat.object.drawable()
        &&& forall|i: int| 0 <= i < LAVA_BLOCKS ==> (#[trigger] self.lava@[i]).object.drawable()
        &&& self.font.can_set(text)
    }

    /// The camera that puts the middle of the player in the middle of a
    /// screen of the given size, at a whole pixel.
    pub open spec fn camera_spec(&self, screen_width: Fixed, screen_height: Fixed) -> Vec2<Fixed> {
        let centered = self.player.object.body.world_bounds().center().sub(
            &Vec2 {
                x: screen_width.div(Fixed::from_int(2)),
                y: screen_height.div(Fixed::from_int(2)),
            },
        );
        Vec2 { x: centered.x.round(), y: centered.y.round() }
    }

    /// Makes the world from the bytes of a map file and the textures to
    /// draw it with. The player starts at (50, 50), the cat at (400, 50),
    /// and the lava lies in a row from (100, 800).
    pub fn new(map_bytes: &[u8], textures: Textures) -> (r: Result<Game, MapError>)
        ensures
            match r {
                Ok(game) => {
                    &&& crate::map::file_fault(map_bytes@) is None
                    &&& game.wf()
                    &&& game.map.width == crate::map::file_width(map_bytes@)
                    &&& game.map.height == crate::map::file_height(map_bytes@)
                    &&& game.map.tiles@ == crate::map::file_tiles(map_bytes@)
                    &&& game.map.tileset.tile_size == TILE_SIZE
                    &&& game.map.tileset.sprite == textures.tileset
                    &&& game.map.tileset.tile_info@ == tile_kinds_spec()
                    &&& game.player.object == player_spec(
                        Vec2 { x: Fixed::from_int(50), y: Fixed::from_int(50) },
                        textures.player,
                        0,
                    )
                    &&& game.cat.object == cat_spec(
                        Vec2 { x: Fixed::from_int(400), y: Fixed::from_int(50) },
                        textures.cat,
                        4,
                    )
                    &&& forall|i: int|
                        0 <= i < LAVA_BLOCKS ==> (#[trigger] game.lava@[i]).object == lava_spec(
                            Vec2 { x: Fixed::from_int((100 + 32 * i) as i64), y: Fixed::from_int(800) },
                            textures.lava,
                            (8 + i) as usize,
                        )
                    &&& game.font == (BitFont {
                        ascii_offset: 32,
                        sprite: Sprite {
                            spritesheet: textures.font,
                            offset: Vec2 { x: 0, y: 0 },
                            frame_width: 8,
                            frame_height: 9,
                            num_frames_x: 96,
                            num_frames_y: 1,
                        },
                    })
                    &&& game.camera == Vec2::<Fixed>::zero()
                    &&& game.background == textures.background
                },
                Err(e) => crate::map::file_fault(map_bytes@) == Some(e),
            },
    {
        let tileset = TileSet {
            tile_size: TILE_SIZE,
            sprite: textures.tileset,
            tile_info: tile_kinds(),
        };
        let map = match TileMap::load_map(map_bytes, tileset) {
            Ok(map) => map,
            Err(e) => {
                return Err(e);
            },
        };
        let player = create_player(
            Vec2::new(Fixed::from_int(50), Fixed::from_int(50)),
            textures.player,
            0,
        );
        let cat = create_cat(Vec2::new(Fixed::from_int(400), Fixed::from_int(50)), textures.cat, 4);
        let mut lava: Vec<Entity<DamageBlock, NoneController<DamageBlock>>> = Vec::new();
        lava.push(
            create_lava_block(
                Vec2::new(Fixed::from_int(100), Fixed::from_int(800)),
                textures.lava,
                8,
            ),
        );
        lava.push(
            create_lava_block(
                Vec2::new(Fixed::from_int(100 + 32), Fixed::from_int(800)),
                textures.lava,
                9,
            ),
        );
        lava.push(
            create_lava_block(
                Vec2::new(Fixed::from_int(100 + 64), Fixed::from_int(800)),
                textures.lava,
                10,
            ),
        );
        let font = BitFont::new(32, 96, 8, 9, textures.font);
        Ok(
            Game {
                map,
                player,
                cat,
                lava,
                font,
                camera: Vec2::<Fixed>::zero(),
                background: textures.background,
            },
        )
    }

    /// Lets `secs` seconds pass for the player, the cat and the lava.
    pub fn update(&mut self, secs: Fixed)
        requires
            old(self).can_update(),
        ensures
            final(self).wf(),
            final(self).map == old(self).map,
            final(self).font == old(self).font,
            final(self).camera == old(self).camera,
            final(self).background == old(self).background,
            stepped(old(self).player, final(self).player, &old(self).map, secs),
            stepped(old(self).cat, final(self).cat, &old(self).map, secs),
            forall|i: int|
                0 <= i < LAVA_BLOCKS ==> stepped(
                    old(self).lava@[i],
                    #[trigger] final(self).lava@[i],
                    &old(self).map,
                    secs,
                ),
    {
        self.player.update(&self.map, secs);
        self.cat.update(&self.map, secs);
        self.lava[0].update(&self.map, secs);
        self.lava[1].update(&self.map, secs);
        self.lava[2].update(&self.map, secs);
    }

    /// Centers the camera on the player, for a screen of the given size,
    /// and says how to draw the world: the background, the map, the player,
    /// the cat, the lava, and `text` in the top left corner.
    pub fn draw(&mut self, screen_width: Fixed, screen_height: Fixed, text: &str) -> (blits: Vec<Blit>)
        requires
            old(self).can_draw(text.spec_bytes()),
        ensures
            final(self).camera == old(self).camera_spec(screen_width, screen_height),
            final(self).map == old(self).map,
            final(self).player == old(self).player,
            final(self).cat == old(self).cat,
            final(self).lava == old(self).lava,
            final(self).font == old(self).font,
            final(self).background == old(self).background,
            exists|tiles: Seq<Blit>|
                {
                    &&& #[trigger] old(self).map.drawn(tiles, final(self).camera)
                    &&& blits@ == seq![
                        Blit {
                            texture: old(self).background,
                            x: Fixed::zero(),
                            y: Fixed::zero(),
                            dest_size: None,
                            source: None,
                            flip_x: false,
                        },
                    ] + tiles + seq![
                        old(self).player.object.draw_spec(final(self).camera),
                        old(self).cat.object.draw_spec(final(self).camera),
                        old(self).lava@[0].object.draw_spec(final(self).camera),
                        old(self).lava@[1].object.draw_spec(final(self).camera),
                        old(self).lava@[2].object.draw_spec(final(self).camera),
                    ] + old(self).font.set(
                        Fixed::zero(),
                        Vec2::<Fixed>::zero(),
                        text.spec_bytes(),
                    )
                },
    {
        let mut blits: Vec<Blit> = Vec::new();
        blits.push(
            Blit {
                texture: self.background,
                x: Fixed::zero(),
                y: Fixed::zero(),
                dest_size: None,
                source: None,
                flip_x: false,
            },
        );
        // Center the camera on the player:
        let two = Fixed::from_int(2);
        let centered = self.player.object.center().sub(
            &Vec2::new(screen_width.div(two), screen_height.div(two)),
        );
        self.camera = Vec2::new(centered.x.round(), centered.y.round());
        let camera = self.camera;

        let mut tiles = self.map.draw(camera);
        let ghost drawn = tiles@;
        blits.append(&mut tiles);
        blits.push(self.player.draw(camera));
        blits.push(self.cat.draw(camera));
        blits.push(self.lava[0].draw(camera));
        blits.push(self.lava[1].draw(camera));
        blits.push(self.lava[2].draw(camera));
        let mut letters = self.font.draw_text(Vec2::<Fixed>::zero(), text);
        let ghost set = letters@;
        let ghost before = blits@;
        blits.append(&mut letters);
        proof {
            assert(self.map.drawn(drawn, camera));
            assert(before =~= seq![
                Blit {
                    texture: self.background,
                    x: Fixed::zero(),
                    y: Fixed::zero(),
                    dest_size: None,
                    source: None,
                    flip_x: false,
                },
            ] + drawn + seq![
                self.player.object.draw_spec(camera),
                self.cat.object.draw_spec(camera),
                self.lava@[0].object.draw_spec(camera),
                self.lava@[1].object.draw_spec(camera),
                self.lava@[2].object.draw_spec(camera),
            ]);
        }
        blits
    }
}

} // verus!
