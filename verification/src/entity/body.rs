//! The physical state of a moving object, and what one time step does to it.
//!
//! Everything here is a mathematical statement: the executable step in the
//! parent module is proved to compute exactly [`step`].

use crate::fixed::Fixed;
use crate::gmath::shapes::Rect;
use crate::gmath::vectors::Vec2;
use crate::map::{tile_ceil, tile_edge, tile_floor, TileMap};
use vstd::prelude::*;

verus! {

/// Pixels per metre, in millionths.
pub const PIXEL_SCALE: i64 = 52_000_000;

/// Acceleration of gravity in metres per second squared, in millionths.
pub const GRAVITY: i64 = 9_800_000;

/// Density of air in kilograms per cubic metre, in millionths.
pub const AIR_DENSITY: i64 = 1_200_000;

/// The squared speed, in millionths, up to which air does not resist.
pub const DRAG_FLOOR: i64 = 100_000;

/// Coefficient of friction of the ground, in millionths.
pub const GROUND_FRICTION: i64 = 900_000;

/// One half, in millionths.
pub const HALF: i64 = 500_000;

/// Values that are used for physics calculations.
#[derive(Copy, Clone, Debug)]
pub struct PhysicalProperties {
    /// The drag coefficient of the object.
    pub c_drag: Fixed,
    /// The mass of the object (kg).
    pub mass: Fixed,
    /// The cross-sectional area of the object (m^2).
    pub cross_area: Fixed,
    /// The maximum horizontal velocity of the object (m/s).
    pub max_vel_x: Fixed,
    /// A friction modifier used for extra control on getting the object to stop.
    pub stop_bonus: Fixed,
}

/// The physical state of an object.
#[derive(Copy, Clone, Debug)]
pub struct Body {
    pub acceleration: Vec2<Fixed>,
    pub velocity: Vec2<Fixed>,
    /// The reference point of the object: the top left of its sprite.
    pub position: Vec2<Fixed>,
    /// The hitbox, relative to `position`.
    pub bounds_offset: Rect,
    /// Whether the last step stopped the object's vertical movement.
    pub on_ground: bool,
    /// Whether the last step stopped the object's horizontal movement.
    pub hit_wall: bool,
    pub properties: PhysicalProperties,
}

impl Body {
    /// The hitbox in world coordinates: `bounds_offset` moved by `position`.
    pub open spec fn world_bounds(&self) -> Rect {
        self.bounds_offset.move_vec(self.position)
    }

    /// Gets the hitbox in world coordinates.
    #[verifier::when_used_as_spec(world_bounds)]
    pub fn bounds(&self) -> (r: Rect)
        ensures
            r == self.world_bounds(),
    {
        self.bounds_offset.move_vec(self.position)
    }
}

/// Acceleration by air resistance: nothing up to a squared speed of
/// [`DRAG_FLOOR`]; above it, the drag force
/// `0.5 * AIR_DENSITY * speed^2 * c_drag * cross_area` divided by the mass,
/// against the direction of `velocity`.
pub open spec fn drag(velocity: Vec2<Fixed>, properties: PhysicalProperties) -> Vec2<Fixed> {
    let speed_squared = velocity.length_sqr();
    if speed_squared.raw > DRAG_FLOOR {
        let force = Fixed { raw: HALF }.mul(Fixed { raw: AIR_DENSITY }).mul(speed_squared).mul(
            properties.c_drag,
        ).mul(properties.cross_area);
        velocity.unit().mul(force.neg().div(properties.mass))
    } else {
        Vec2::<Fixed>::zero()
    }
}

/// Friction acts on an object that is not pushed sideways, or that moves
/// against its push.
pub open spec fn friction_applies(acceleration_x: Fixed, velocity_x: Fixed) -> bool {
    acceleration_x.raw == 0 || (velocity_x.raw != 0 && ((velocity_x.raw < 0) != (acceleration_x.raw
        < 0)))
}

/// The speed that friction takes away in a step of `dt` seconds:
/// `0.9 * GRAVITY * stop_bonus * dt`.
pub open spec fn friction_loss(properties: PhysicalProperties, dt: Fixed) -> Fixed {
    Fixed { raw: GROUND_FRICTION }.mul(Fixed { raw: GRAVITY }).mul(properties.stop_bonus).mul(dt)
}

/// `velocity_x` brought toward zero by `loss`, and not past it.
pub open spec fn slowed(velocity_x: Fixed, loss: Fixed) -> Fixed {
    if velocity_x.raw < 0 {
        velocity_x.add(loss).min(Fixed::zero())
    } else {
        velocity_x.sub(loss).max(Fixed::zero())
    }
}

/// `value`, lowered to `max` and then raised to `min`.
pub open spec fn clamped(value: Fixed, min: Fixed, max: Fixed) -> Fixed {
    value.min(max).max(min)
}

/// The velocity after acceleration, air resistance, ground friction and the
/// limit on horizontal speed have acted for `dt` seconds, in that order.
/// Air resistance and friction go by the velocity before the step.
pub open spec fn forced_velocity(body: Body, dt: Fixed) -> Vec2<Fixed> {
    let pushed = body.velocity.add(&body.acceleration.mul(dt));
    let dragged = pushed.add(&drag(body.velocity, body.properties).mul(dt));
    let x = if body.on_ground && friction_applies(body.acceleration.x, body.velocity.x) {
        slowed(dragged.x, friction_loss(body.properties, dt))
    } else {
        dragged.x
    };
    Vec2 { x: clamped(x, body.properties.max_vel_x.neg(), body.properties.max_vel_x), y: dragged.y }
}

/// The distance in pixels that `speed` covers in `dt` seconds.
pub open spec fn travel(speed: Fixed, dt: Fixed) -> Fixed {
    speed.mul(dt).mul(Fixed { raw: PIXEL_SCALE })
}

/// Whether tile `(i, j)` is solid, `i` being the column when `along_x`
/// and the row otherwise.
pub open spec fn cell_solid(map: &TileMap, along_x: bool, i: int, j: int) -> bool {
    if along_x {
        map.solid_at(i, j)
    } else {
        map.solid_at(j, i)
    }
}

/// Whether line `i` (a column when `along_x`, else a row) has a solid tile
/// among its tiles `lo..hi`.
pub open spec fn line_blocked(map: &TileMap, along_x: bool, i: int, lo: int, hi: int) -> bool {
    exists|j: int| lo <= j < hi && #[trigger] cell_solid(map, along_x, i, j)
}

/// The first blocked line from `start` upward and before `end`, or `end`.
pub open spec fn scan_up(map: &TileMap, along_x: bool, start: int, end: int, lo: int, hi: int) -> int
    decreases end - start,
{
    if start >= end {
        end
    } else if line_blocked(map, along_x, start, lo, hi) {
        start
    } else {
        scan_up(map, along_x, start + 1, end, lo, hi)
    }
}

/// The first blocked line from `start` downward and above `end`, or `end`.
pub open spec fn scan_down(map: &TileMap, along_x: bool, start: int, end: int, lo: int, hi: int) -> int
    decreases start - end,
{
    if start <= end {
        end
    } else if line_blocked(map, along_x, start, lo, hi) {
        start
    } else {
        scan_down(map, along_x, start - 1, end, lo, hi)
    }
}

/// A scan upward ends between its start and its end, at the first blocked
/// line if there is one before the end.
pub proof fn lemma_scan_up(map: &TileMap, along_x: bool, start: int, end: int, lo: int, hi: int)
    ensures
        start <= end ==> start <= scan_up(map, along_x, start, end, lo, hi) <= end,
        start > end ==> scan_up(map, along_x, start, end, lo, hi) == end,
        hi <= lo ==> scan_up(map, along_x, start, end, lo, hi) == end,
        scan_up(map, along_x, start, end, lo, hi) < end ==> line_blocked(
            map,
            along_x,
            scan_up(map, along_x, start, end, lo, hi),
            lo,
            hi,
        ),
        forall|i: int|
            start <= i < scan_up(map, along_x, start, end, lo, hi) ==> !line_blocked(
                map,
                along_x,
                i,
                lo,
                hi,
            ),
    decreases end - start,
{
    if start < end && !line_blocked(map, along_x, start, lo, hi) {
        lemma_scan_up(map, along_x, start + 1, end, lo, hi);
    }
}

/// A scan downward ends between its end and its start, at the first blocked
/// line if there is one before the end.
pub proof fn lemma_scan_down(map: &TileMap, along_x: bool, start: int, end: int, lo: int, hi: int)
    ensures
        start >= end ==> end <= scan_down(map, along_x, start, end, lo, hi) <= start,
        start < end ==> scan_down(map, along_x, start, end, lo, hi) == end,
        hi <= lo ==> scan_down(map, along_x, start, end, lo, hi) == end,
        scan_down(map, along_x, start, end, lo, hi) > end ==> line_blocked(
            map,
            along_x,
            scan_down(map, along_x, start, end, lo, hi),
            lo,
            hi,
        ),
        forall|i: int|
            scan_down(map, along_x, start, end, lo, hi) < i <= start ==> !line_blocked(
                map,
                along_x,
                i,
                lo,
                hi,
            ),
    decreases start - end,
{
    if start > end && !line_blocked(map, along_x, start, lo, hi) {
        lemma_scan_down(map, along_x, start - 1, end, lo, hi);
    }
}

/// The smaller of two integers.
pub open spec fn lesser(a: int, b: int) -> int {
    if a < b {
        a
    } else {
        b
    }
}

/// The map can be moved in: it has tiles, of a positive size, and knows them.
pub open spec fn playable(map: &TileMap) -> bool {
    &&& map.wf()
    &&& map.width >= 1
    &&& map.height >= 1
    &&& map.tileset.tile_size > 0
}

/// The box does not start to the right of the grid or below it.
pub open spec fn within(bounds: Rect, map: &TileMap) -> bool {
    &&& tile_floor(bounds.left(), map) < map.width
    &&& tile_floor(bounds.top(), map) < map.height
}

/// How far a box at `bounds` can go along x before it meets a solid tile or
/// the edge of the grid: signed, and zero when no movement is wanted.
///
/// The columns are walked from the box's leading edge in the direction of
/// `velocity_x`; of each, the rows that the box spans are looked at.
pub open spec fn limit_x(bounds: Rect, velocity_x: Fixed, map: &TileMap, max_dist: Fixed) -> Fixed {
    if max_dist.raw == 0 {
        Fixed::zero()
    } else {
        let lo = tile_floor(bounds.top(), map);
        let hi = lesser(map.height as int, tile_ceil(bounds.bottom(), map));
        if velocity_x.raw < 0 {
            let tile = scan_down(map, true, tile_floor(bounds.left(), map), 0, lo, hi);
            tile_edge(tile + 1, map).sub(bounds.left())
        } else {
            let tile = scan_up(map, true, tile_ceil(bounds.right(), map), map.width - 1, lo, hi);
            tile_edge(tile, map).sub(bounds.right())
        }
    }
}

/// How far a box at `bounds` can go along y before it meets a solid tile or
/// the edge of the grid: signed, and zero when no movement is wanted.
///
/// The rows are walked from the box's leading edge in the direction of
/// `velocity_y`; of each, the columns that the box spans are looked at.
pub open spec fn limit_y(bounds: Rect, velocity_y: Fixed, map: &TileMap, max_dist: Fixed) -> Fixed {
    if max_dist.raw == 0 {
        Fixed::zero()
    } else {
        let lo = tile_floor(bounds.left(), map);
        let hi = lesser(map.width as int, tile_ceil(bounds.right(), map));
        if velocity_y.raw < 0 {
            let tile = scan_down(map, false, tile_floor(bounds.top(), map), 0, lo, hi);
            tile_edge(tile + 1, map).sub(bounds.top())
        } else {
            let tile = scan_up(map, false, tile_ceil(bounds.bottom(), map), map.height - 1, lo, hi);
            tile_edge(tile, map).sub(bounds.bottom())
        }
    }
}

/// A movement is blocked when it is longer than the room there is. One
/// that is exactly as long is free.
pub open spec fn blocked(wanted: Fixed, limit: Fixed) -> bool {
    wanted.abs().raw > limit.abs().raw
}

/// The body after its horizontal movement for `dt` seconds.
pub open spec fn moved_x(body: Body, map: &TileMap, dt: Fixed) -> Body {
    let wanted = travel(body.velocity.x, dt);
    let limit = limit_x(body.world_bounds(), body.velocity.x, map, wanted);
    if blocked(wanted, limit) {
        Body {
            position: Vec2 { x: body.position.x.add(limit), y: body.position.y },
            velocity: Vec2 { x: Fixed::zero(), y: body.velocity.y },
            hit_wall: true,
            ..body
        }
    } else {
        Body {
            position: Vec2 { x: body.position.x.add(wanted), y: body.position.y },
            hit_wall: false,
            ..body
        }
    }
}

/// The body after its vertical movement for `dt` seconds.
pub open spec fn moved_y(body: Body, map: &TileMap, dt: Fixed) -> Body {
    let wanted = travel(body.velocity.y, dt);
    let limit = limit_y(body.world_bounds(), body.velocity.y, map, wanted);
    if blocked(wanted, limit) {
        Body {
            position: Vec2 { x: body.position.x, y: body.position.y.add(limit) },
            velocity: Vec2 { x: body.velocity.x, y: Fixed::zero() },
            on_ground: true,
            ..body
        }
    } else {
        Body {
            position: Vec2 { x: body.position.x, y: body.position.y.add(wanted) },
            on_ground: false,
            ..body
        }
    }
}

/// The body after one step of `dt` seconds: the forces act on the velocity,
/// then the body moves along x, then along y from where that left it.
pub open spec fn step(body: Body, map: &TileMap, dt: Fixed) -> Body {
    let forced = Body { velocity: forced_velocity(body, dt), ..body };
    moved_y(moved_x(forced, map, dt), map, dt)
}

} // verus!
