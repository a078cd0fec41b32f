//! Tile kinds and the sheet they are drawn from.

use crate::fixed::Fixed;
use crate::gmath::shapes::Rect;
use crate::gmath::vectors::Vec2;
use crate::sprite::{Blit, TextureId};
use vstd::prelude::*;

verus! {

/// What the world needs to know about one kind of tile.
#[derive(Copy, Clone, Debug)]
pub struct TileInfo {
    /// Whether bodies collide with the tile.
    pub solid: bool,
    /// Surface friction of the tile.
    pub friction: Fixed,
}

/// A sheet of square tiles laid out in one row, and the table of their
/// kinds, indexed by tile id.
pub struct TileSet {
    /// Edge length of a tile in pixels.
    pub tile_size: i32,
    pub sprite: TextureId,
    pub tile_info: Vec<TileInfo>,
}

impl TileSet {
    /// The table has an entry for `id_num`.
    pub open spec fn knows(&self, id_num: u16) -> bool {
        (id_num as int) < self.tile_info@.len()
    }

    /// The left edge of tile `id_num` on the sheet is a pixel that `i32` can count.
    pub open spec fn can_draw(&self, id_num: u16) -> bool {
        i32::MIN <= id_num as int * self.tile_size as int <= i32::MAX
    }

    /// How tile `id_num` is drawn into `dest_rect`.
    pub open spec fn draw_spec(&self, id_num: u16, dest_rect: Rect) -> Blit {
        Blit {
            texture: self.sprite,
            x: dest_rect.x,
            y: dest_rect.y,
            dest_size: Some(Vec2 { x: dest_rect.width, y: dest_rect.height }),
            source: Some(self.source_rect_spec(id_num)),
            flip_x: false,
        }
    }

    /// The part of the sheet that shows tile `id_num`.
    pub open spec fn source_rect_spec(&self, id_num: u16) -> Rect {
        Rect {
            x: Fixed::from_int((id_num as int * self.tile_size as int) as i64),
            y: Fixed::zero(),
            width: Fixed::from_int(self.tile_size as i64),
            height: Fixed::from_int(self.tile_size as i64),
        }
    }

    /// Looks up the kind of the tile with the given id.
    pub fn id(&self, id_num: u16) -> (info: TileInfo)
        requires
            self.knows(id_num),
        ensures
            info == self.tile_info@[id_num as int],
    {
        self.tile_info[id_num as usize]
    }

    /// The part of the sheet that shows tile `id_num`: the tiles stand side
    /// by side, so its left edge is `id_num * tile_size`.
    pub fn source_rect(&self, id_num: u16) -> (r: Rect)
        requires
            self.can_draw(id_num),
        ensures
            r == self.source_rect_spec(id_num),
    {
        let left: i32 = id_num as i32 * self.tile_size;
        Rect::new(
            Fixed::from_int(left as i64),
            Fixed::zero(),
            Fixed::from_int(self.tile_size as i64),
            Fixed::from_int(self.tile_size as i64),
        )
    }

    /// Says how to draw tile `id_num` into `dest_rect`.
    #[verifier::when_used_as_spec(draw_spec)]
    pub fn draw(&self, id_num: u16, dest_rect: Rect) -> (b: Blit)
        requires
            self.can_draw(id_num),
        ensures
            b == self.draw_spec(id_num, dest_rect),
    {
        let source_rect = self.source_rect(id_num);
        Blit {
            texture: self.sprite,
            x: dest_rect.x,
            y: dest_rect.y,
            dest_size: Some(dest_rect.size()),
            source: Some(source_rect),
            flip_x: false,
        }
    }
}

} // verus!
