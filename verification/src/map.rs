//! The tile grid and its binary file format.

use crate::fixed::{sat, Fixed, SCALE};
use crate::gmath::shapes::Rect;
use crate::gmath::vectors::Vec2;
use crate::sprite::Blit;
use crate::tiles::{TileInfo, TileSet};
use vstd::prelude::*;

verus! {

/// Length of the header of a map file.
pub const HEADER_LEN: usize = 12;

/// The version of the file format that is understood.
pub const VERSION: u8 = 1;

/// Why a map file was refused.
#[derive(Clone, Copy, Debug, PartialEq, Eq)]
pub enum MapError {
    /// The buffer is shorter than a header.
    Header,
    /// The buffer does not start with the bytes `MAP`.
    Magic,
    /// The version byte is not [`VERSION`].
    Version,
    /// The buffer ends before the last tile: `expected` bytes of tiles were
    /// announced by the header, `found` follow it.
    Tiles { expected: u128, found: usize },
}

/// The little-endian number in the four bytes from `at`.
pub open spec fn le_u32(b: Seq<u8>, at: int) -> int {
    b[at] + 0x100 * b[at + 1] + 0x1_0000 * b[at + 2] + 0x100_0000 * b[at + 3]
}

/// The little-endian number in the two bytes from `at`.
pub open spec fn le_u16(b: Seq<u8>, at: int) -> int {
    b[at] + 0x100 * b[at + 1]
}

/// The width that a file's header announces.
pub open spec fn file_width(b: Seq<u8>) -> int {
    le_u32(b, 4)
}

/// The height that a file's header announces.
pub open spec fn file_height(b: Seq<u8>) -> int {
    le_u32(b, 8)
}

/// The tile ids of a file, row by row.
pub open spec fn file_tiles(b: Seq<u8>) -> Seq<u16> {
    Seq::new(
        (file_width(b) * file_height(b)) as nat,
        |i: int| le_u16(b, HEADER_LEN + 2 * i) as u16,
    )
}

/// The first fault of a file, if it has one: a short header, then the magic
/// bytes, then the version, then a tile payload shorter than
/// `2 * width * height` bytes.
pub open spec fn file_fault(b: Seq<u8>) -> Option<MapError> {
    if b.len() < HEADER_LEN {
        Some(MapError::Header)
    } else if b[0] != 0x4d || b[1] != 0x41 || b[2] != 0x50 {
        Some(MapError::Magic)
    } else if b[3] != VERSION {
        Some(MapError::Version)
    } else if b.len() - HEADER_LEN < 2 * file_width(b) * file_height(b) {
        Some(
            MapError::Tiles {
                expected: (2 * file_width(b) * file_height(b)) as u128,
                found: (b.len() - HEADER_LEN) as usize,
            },
        )
    } else {
        None
    }
}

/// The four bytes that hold `v`, the lowest first.
pub open spec fn u32_bytes(v: u32) -> Seq<u8> {
    seq![
        (v % 0x100) as u8,
        (v / 0x100 % 0x100) as u8,
        (v / 0x1_0000 % 0x100) as u8,
        (v / 0x100_0000) as u8,
    ]
}

/// The bytes that hold `tiles`, two for each, the lower first.
pub open spec fn tile_bytes(tiles: Seq<u16>) -> Seq<u8> {
    Seq::new(
        2 * tiles.len(),
        |i: int|
            if i % 2 == 0 {
                (tiles[i / 2] % 0x100) as u8
            } else {
                (tiles[i / 2] / 0x100) as u8
            },
    )
}

/// The map file of a grid.
pub open spec fn file_of(width: u32, height: u32, tiles: Seq<u16>) -> Seq<u8> {
    seq![0x4du8, 0x41u8, 0x50u8, VERSION] + u32_bytes(width) + u32_bytes(height) + tile_bytes(tiles)
}

/// The file of a grid has no fault, and holds the grid's width, height and tiles.
pub proof fn lemma_file_of_is_read_back(width: u32, height: u32, tiles: Seq<u16>)
    requires
        tiles.len() == width * height,
    ensures
        file_fault(file_of(width, height, tiles)) is None,
        file_width(file_of(width, height, tiles)) == width,
        file_height(file_of(width, height, tiles)) == height,
        file_tiles(file_of(width, height, tiles)) == tiles,
{
    let b = file_of(width, height, tiles);
    let w = u32_bytes(width);
    let h = u32_bytes(height);
    let t = tile_bytes(tiles);
    assert(b.len() == HEADER_LEN + 2 * tiles.len());
    assert(b[0] == 0x4d && b[1] == 0x41 && b[2] == 0x50 && b[3] == VERSION);
    assert(b[4] == w[0] && b[5] == w[1] && b[6] == w[2] && b[7] == w[3]);
    assert(b[8] == h[0] && b[9] == h[1] && b[10] == h[2] && b[11] == h[3]);
    assert(file_width(b) == width);
    assert(file_height(b) == height);
    assert(2 * file_width(b) * file_height(b) == 2 * (width * height)) by (nonlinear_arith)
        requires
            file_width(b) == width,
            file_height(b) == height,
    ;
    assert forall|i: int| 0 <= i < tiles.len() implies le_u16(b, HEADER_LEN + 2 * i) as u16
        == tiles[i] by {
        assert(b[HEADER_LEN + 2 * i] == t[2 * i]);
        assert(b[HEADER_LEN + 2 * i + 1] == t[2 * i + 1]);
    }
    assert(file_tiles(b) =~= tiles);
}

/// A grid of tile ids, row-major with tile (0, 0) at the top left, and the
/// tile set that says what each id is.
pub struct TileMap {
    pub width: usize,
    pub height: usize,
    pub tiles: Vec<u16>,
    pub tileset: TileSet,
}

fn read_u32(b: &[u8], at: usize) -> (r: u32)
    requires
        at + 4 <= b@.len(),
    ensures
        r == le_u32(b@, at as int),
{
    let b0: u32 = b[at] as u32;
    let b1: u32 = b[at + 1] as u32;
    let b2: u32 = b[at + 2] as u32;
    let b3: u32 = b[at + 3] as u32;
    b0 + 0x100 * b1 + 0x1_0000 * b2 + 0x100_0000 * b3
}

fn read_u16(b: &[u8], at: usize) -> (r: u16)
    requires
        at + 2 <= b@.len(),
    ensures
        r == le_u16(b@, at as int),
{
    let b0: u16 = b[at] as u16;
    let b1: u16 = b[at + 1] as u16;
    b0 + 0x100 * b1
}

impl TileMap {
    /// The grid has one id per tile, and the tile set knows every id.
    pub open spec fn wf(&self) -> bool {
        &&& self.tiles@.len() == self.width * self.height
        &&& forall|i: int| 0 <= i < self.tiles@.len() ==> self.tileset.knows(#[trigger] self.tiles@[i])
    }

    /// Tile `(x, y)` lies in the grid.
    pub open spec fn in_grid(&self, x: int, y: int) -> bool {
        0 <= x < self.width && 0 <= y < self.height
    }

    /// The id of tile `(x, y)`.
    pub open spec fn id_at(&self, x: int, y: int) -> u16 {
        self.tiles@[x + y * self.width]
    }

    /// The kind of tile `(x, y)`.
    pub open spec fn info_at(&self, x: int, y: int) -> TileInfo {
        self.tileset.tile_info@[self.id_at(x, y) as int]
    }

    /// Whether tile `(x, y)` is solid.
    pub open spec fn solid_at(&self, x: int, y: int) -> bool {
        self.info_at(x, y).solid
    }

    /// Every tile of the grid can be drawn from the sheet.
    pub open spec fn can_draw(&self) -> bool {
        forall|i: int| 0 <= i < self.tiles@.len() ==> self.tileset.can_draw(#[trigger] self.tiles@[i])
    }

    /// The size of the grid in pixels.
    pub open spec fn size_spec(&self) -> Vec2<Fixed> {
        Vec2 { x: tile_edge(self.width as int, self), y: tile_edge(self.height as int, self) }
    }

    /// Where tile `(x, y)` goes on the screen, as seen from `camera`.
    pub open spec fn tile_rect(&self, x: int, y: int, camera: Vec2<Fixed>) -> Rect {
        Rect {
            x: tile_edge(x, self).sub(camera.x),
            y: tile_edge(y, self).sub(camera.y),
            width: Fixed::from_int(self.tileset.tile_size as i64),
            height: Fixed::from_int(self.tileset.tile_size as i64),
        }
    }

    /// How tile `(x, y)` is drawn, as seen from `camera`.
    pub open spec fn tile_blit(&self, x: int, y: int, camera: Vec2<Fixed>) -> Blit {
        self.tileset.draw_spec(self.id_at(x, y), self.tile_rect(x, y, camera))
    }

    /// `blits` draws the grid as seen from `camera`: one tile after the
    /// other, column by column from the left, each column from the top.
    pub open spec fn drawn(&self, blits: Seq<Blit>, camera: Vec2<Fixed>) -> bool {
        &&& blits.len() == self.width * self.height
        &&& forall|x: int, y: int|
            self.in_grid(x, y) ==> {
                &&& 0 <= slot(x, y, self.height as int) < blits.len()
                &&& blits[#[trigger] slot(x, y, self.height as int)] == self.tile_blit(x, y, camera)
            }
    }

    /// Reads a map from the bytes of a map file.
    ///
    /// The file is little-endian: the three bytes `MAP`, a version byte, the
    /// width and the height as 32-bit numbers, then one 16-bit tile id per
    /// tile, row by row. Bytes after the last tile are ignored.
    pub fn load_map(bytes: &[u8], tileset: TileSet) -> (r: Result<TileMap, MapError>)
        ensures
            match r {
                Ok(map) => {
                    &&& file_fault(bytes@) is None
                    &&& map.width == file_width(bytes@)
                    &&& map.height == file_height(bytes@)
                    &&& map.tiles@ == file_tiles(bytes@)
                    &&& map.tileset == tileset
                },
                Err(e) => file_fault(bytes@) == Some(e),
            },
    {
        let n = bytes.len();
        if n < HEADER_LEN {
            return Err(MapError::Header);
        }
        if bytes[0] != 0x4d || bytes[1] != 0x41 || bytes[2] != 0x50 {
            return Err(MapError::Magic);
        }
        if bytes[3] != VERSION {
            return Err(MapError::Version);
        }
        let width: u32 = read_u32(bytes, 4);
        let height: u32 = read_u32(bytes, 8);
        let w: u128 = width as u128;
        let h: u128 = height as u128;
        assert(0 <= w * h <= 0xffff_ffff * 0xffff_ffff) by (nonlinear_arith)
            requires
                0 <= w <= 0xffff_ffff,
                0 <= h <= 0xffff_ffff,
        ;
        assert(2 * file_width(bytes@) * file_height(bytes@) == 2 * (w * h)) by (nonlinear_arith)
            requires
                file_width(bytes@) == w,
                file_height(bytes@) == h,
        ;
        let expected: u128 = 2 * (w * h);
        let found: usize = n - HEADER_LEN;
        if (found as u128) < expected {
            return Err(MapError::Tiles { expected, found });
        }
        let count: usize = (w * h) as usize;
        let mut tiles: Vec<u16> = Vec::new();
        let mut i: usize = 0;
        while i < count
            invariant
                i <= count,
                HEADER_LEN == 12,
                n == bytes@.len(),
                HEADER_LEN + 2 * count <= n,
                tiles@.len() == i,
                forall|k: int| 0 <= k < i ==> tiles@[k] == le_u16(bytes@, HEADER_LEN + 2 * k) as u16,
            decreases count - i,
        {
            let id: u16 = read_u16(bytes, HEADER_LEN + 2 * i);
            tiles.push(id);
            i += 1;
        }
        assert(tiles@ =~= file_tiles(bytes@));
        Ok(TileMap { tiles, width: width as usize, height: height as usize, tileset })
    }

    /// The edge length of a tile in pixels.
    pub fn tile_size(&self) -> (r: i32)
        ensures
            r == self.tileset.tile_size,
    {
        self.tileset.tile_size
    }

    /// The size of the grid in pixels.
    #[verifier::when_used_as_spec(size_spec)]
    pub fn size(&self) -> (v: Vec2<Fixed>)
        requires
            self.tileset.tile_size > 0,
        ensures
            v == self.size_spec(),
    {
        Vec2::new(edge(self.width as u64, self), edge(self.height as u64, self))
    }

    /// Says how to draw the grid as seen from `camera`.
    pub fn draw(&self, camera: Vec2<Fixed>) -> (blits: Vec<Blit>)
        requires
            self.wf(),
            self.can_draw(),
            self.tileset.tile_size > 0,
        ensures
            self.drawn(blits@, camera),
    {
        let mut blits: Vec<Blit> = Vec::new();
        let tile_size = Fixed::from_int(self.tile_size() as i64);
        let mut tile_x: usize = 0;
        while tile_x < self.width
            invariant
                self.wf(),
                self.can_draw(),
                self.tileset.tile_size > 0,
                tile_size == Fixed::from_int(self.tileset.tile_size as i64),
                tile_x <= self.width,
                blits@.len() == tile_x * self.height,
                forall|x: int, y: int|
                    0 <= x < tile_x && 0 <= y < self.height ==> {
                        &&& 0 <= slot(x, y, self.height as int) < blits@.len()
                        &&& blits@[#[trigger] slot(x, y, self.height as int)] == self.tile_blit(
                            x,
                            y,
                            camera,
                        )
                    },
            decreases self.width - tile_x,
        {
            let mut tile_y: usize = 0;
            while tile_y < self.height
                invariant
                    self.wf(),
                    self.can_draw(),
                    self.tileset.tile_size > 0,
                    tile_size == Fixed::from_int(self.tileset.tile_size as i64),
                    tile_x < self.width,
                    tile_y <= self.height,
                    blits@.len() == tile_x * self.height + tile_y,
                    forall|x: int, y: int|
                        0 <= x < tile_x && 0 <= y < self.height ==> {
                            &&& 0 <= slot(x, y, self.height as int) < tile_x * self.height
                            &&& blits@[#[trigger] slot(x, y, self.height as int)]
                                == self.tile_blit(x, y, camera)
                        },
                    forall|y: int|
                        0 <= y < tile_y ==> blits@[#[trigger] slot(
                            tile_x as int,
                            y,
                            self.height as int,
                        )] == self.tile_blit(tile_x as int, y, camera),
                decreases self.height - tile_y,
            {
                let dest_rect = Rect::new(
                    edge(tile_x as u64, self).sub(camera.x),
                    edge(tile_y as u64, self).sub(camera.y),
                    tile_size,
                    tile_size,
                );
                proof {
                    lemma_cell_in_range(
                        tile_x as int,
                        tile_y as int,
                        self.width as int,
                        self.height as int,
                    );
                }
                let blit = self.tileset.draw(self.get(tile_x, tile_y), dest_rect);
                blits.push(blit);
                tile_y += 1;
            }
            proof {
                assert((tile_x + 1) * self.height == tile_x * self.height + self.height)
                    by (nonlinear_arith);
            }
            tile_x += 1;
        }
        blits
    }

    /// The id of tile `(x, y)`.
    pub fn get(&self, x: usize, y: usize) -> (id: u16)
        requires
            self.tiles@.len() == self.width * self.height,
            self.in_grid(x as int, y as int),
        ensures
            id == self.id_at(x as int, y as int),
    {
        let cells = self.tiles.len();
        proof {
            lemma_cell_in_range(x as int, y as int, self.width as int, self.height as int);
            assert(x + y * self.width < cells);
        }
        self.tiles[x + y * self.width]
    }

    /// Checks that the grid has one id per tile and that the tile set knows
    /// every id.
    pub fn is_wf(&self) -> (ok: bool)
        ensures
            ok == self.wf(),
    {
        let count = self.tiles.len();
        let cells = match self.width.checked_mul(self.height) {
            Some(cells) => cells,
            None => {
                return false;
            },
        };
        if count != cells {
            return false;
        }
        let kinds = self.tileset.tile_info.len();
        let mut i: usize = 0;
        while i < self.tiles.len()
            invariant
                i <= self.tiles@.len(),
                kinds == self.tileset.tile_info@.len(),
                forall|k: int| 0 <= k < i ==> self.tileset.knows(#[trigger] self.tiles@[k]),
            decreases self.tiles@.len() - i,
        {
            if self.tiles[i] as usize >= kinds {
                return false;
            }
            i += 1;
        }
        true
    }

    /// The kind of tile `(x, y)`, or nothing for a tile outside the grid.
    pub fn try_tile_info_at(&self, x: usize, y: usize) -> (info: Option<TileInfo>)
        requires
            self.wf(),
        ensures
            info == if self.in_grid(x as int, y as int) {
                Some(self.info_at(x as int, y as int))
            } else {
                None
            },
    {
        if x < self.width && y < self.height {
            Some(self.tile_info_at(x, y))
        } else {
            None
        }
    }

    /// The kind of tile `(x, y)`, which must lie in the grid.
    pub fn tile_info_at(&self, x: usize, y: usize) -> (info: TileInfo)
        requires
            self.wf(),
            self.in_grid(x as int, y as int),
        ensures
            info == self.info_at(x as int, y as int),
    {
        proof {
            lemma_cell_in_range(x as int, y as int, self.width as int, self.height as int);
        }
        self.tileset.id(self.get(x, y))
    }
}

/// Millionths of a pixel per tile.
pub open spec fn span(map: &TileMap) -> int {
    map.tileset.tile_size * SCALE
}

/// The index of the tile that holds coordinate `v`, and 0 left of the grid.
pub open spec fn tile_floor(v: Fixed, map: &TileMap) -> int {
    let t = v.raw as int / span(map);
    if t < 0 {
        0
    } else {
        t
    }
}

/// The index of the first tile that starts at or after coordinate `v`, and 0
/// left of the grid.
pub open spec fn tile_ceil(v: Fixed, map: &TileMap) -> int {
    let t = -((-v.raw) / span(map));
    if t < 0 {
        0
    } else {
        t
    }
}

/// The coordinate at which tile `index` starts.
pub open spec fn tile_edge(index: int, map: &TileMap) -> Fixed {
    Fixed { raw: sat(index * span(map)) as i64 }
}

/// Floor of `a / b` for a positive `b`.
fn floor_div(a: i64, b: i64) -> (q: i64)
    requires
        b > 0,
    ensures
        q == a as int / b as int,
{
    if a >= 0 {
        a / b
    } else {
        let m: i64 = -(a + 1);
        let q: i64 = m / b;
        proof {
            vstd::arithmetic::div_mod::lemma_fundamental_div_mod(m as int, b as int);
            vstd::arithmetic::div_mod::lemma_mod_pos_bound(m as int, b as int);
            assert((-q - 1) * b == -(b * q) - b) by (nonlinear_arith);
            vstd::arithmetic::div_mod::lemma_fundamental_div_mod_converse(
                a as int,
                b as int,
                -q - 1,
                b - (m as int % b as int) - 1,
            );
        }
        -q - 1
    }
}

/// Millionths of a pixel per tile.
pub fn tile_span(map: &TileMap) -> (r: i64)
    requires
        map.tileset.tile_size > 0,
    ensures
        r == span(map),
        0 < r <= 2_147_483_647_000_000,
{
    let t: i64 = map.tileset.tile_size as i64;
    assert(SCALE == 1_000_000);
    t * 1_000_000
}

/// The index of the tile that holds coordinate `v`.
pub fn first_tile(v: Fixed, map: &TileMap) -> (t: u64)
    requires
        map.tileset.tile_size > 0,
    ensures
        t == tile_floor(v, map),
{
    let q = floor_div(v.raw, tile_span(map));
    if q < 0 {
        0
    } else {
        q as u64
    }
}

/// The index of the first tile that starts at or after coordinate `v`.
pub fn end_tile(v: Fixed, map: &TileMap) -> (t: u64)
    requires
        map.tileset.tile_size > 0,
    ensures
        t == tile_ceil(v, map),
{
    let d = tile_span(map);
    if v.raw == i64::MIN {
        proof {
            vstd::arithmetic::div_mod::lemma_div_pos_is_pos(-(v.raw as int), d as int);
        }
        0
    } else {
        let q = floor_div(-v.raw, d);
        if q > 0 {
            0
        } else {
            let n: i128 = -(q as i128);
            n as u64
        }
    }
}

/// The coordinate at which tile `index` starts.
pub fn edge(index: u64, map: &TileMap) -> (r: Fixed)
    requires
        map.tileset.tile_size > 0,
    ensures
        r == tile_edge(index as int, map),
{
    let i: i128 = index as i128;
    let d: i128 = tile_span(map) as i128;
    assert(0 <= i * d <= 0x1_0000_0000_0000_0000 * 0x8_0000_0000_0000) by (nonlinear_arith)
        requires
            0 <= i <= 0x1_0000_0000_0000_0000,
            0 <= d <= 0x8_0000_0000_0000,
    ;
    let raw: i128 = i * d;
    if raw > i64::MAX as i128 {
        Fixed { raw: i64::MAX }
    } else {
        Fixed { raw: raw as i64 }
    }
}

/// The place of tile `(x, y)` in a listing of a grid column by column.
pub open spec fn slot(x: int, y: int, height: int) -> int {
    x * height + y
}

/// A cell of a grid has its row-major index inside the grid.
pub proof fn lemma_cell_in_range(x: int, y: int, width: int, height: int)
    requires
        0 <= x < width,
        0 <= y < height,
    ensures
        0 <= y * width <= x + y * width < width * height,
{
    assert(0 <= y * width && y * width + width <= height * width) by (nonlinear_arith)
        requires
            0 <= y < height,
            0 < width,
    ;
    assert(height * width == width * height) by (nonlinear_arith);
}

} // verus!
