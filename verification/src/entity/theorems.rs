//! What holds of every step of the physics.

use crate::entity::body::{
    blocked, cell_solid, forced_velocity, friction_loss, lemma_scan_up, lesser, limit_x, limit_y,
    line_blocked, moved_x, scan_up, slowed, step, travel, Body, DRAG_FLOOR, GRAVITY,
    GROUND_FRICTION, PIXEL_SCALE,
};
use crate::fixed::Fixed;
use crate::gmath::vectors::Vec2;
use crate::map::{tile_ceil, tile_edge, tile_floor, TileMap};
use vstd::prelude::*;

verus! {

/// The body after `n` steps of `dt` seconds each.
pub open spec fn steps(body: Body, map: &TileMap, dt: Fixed, n: nat) -> Body
    decreases n,
{
    if n == 0 {
        body
    } else {
        steps(step(body, map, dt), map, dt, (n - 1) as nat)
    }
}

/// A body at rest that nothing accelerates is at rest.
pub open spec fn at_rest(body: Body) -> bool {
    &&& body.acceleration == Vec2::<Fixed>::zero()
    &&& body.velocity == Vec2::<Fixed>::zero()
}

/// The product of two numbers that are not negative is not negative.
pub proof fn lemma_mul_nonnegative(a: Fixed, b: Fixed)
    requires
        a.raw >= 0,
        b.raw >= 0,
    ensures
        a.mul(b).raw >= 0,
{
    assert(a.raw * b.raw >= 0) by (nonlinear_arith)
        requires
            a.raw >= 0,
            b.raw >= 0,
    ;
}

/// A product with zero is zero.
pub proof fn lemma_mul_zero(a: Fixed, b: Fixed)
    requires
        a.raw == 0 || b.raw == 0,
    ensures
        a.mul(b) == Fixed::zero(),
{
    assert(a.raw * b.raw == 0) by (nonlinear_arith)
        requires
            a.raw == 0 || b.raw == 0,
    ;
}

/// With a stop bonus and a time step that are not negative, friction takes
/// speed away and gives none.
pub proof fn lemma_friction_loss_nonnegative(body: Body, dt: Fixed)
    requires
        body.properties.stop_bonus.raw >= 0,
        dt.raw >= 0,
    ensures
        friction_loss(body.properties, dt).raw >= 0,
{
    let g = Fixed { raw: GROUND_FRICTION }.mul(
        Fixed { raw: GRAVITY },
    );
    lemma_mul_nonnegative(
        Fixed { raw: GROUND_FRICTION },
        Fixed { raw: GRAVITY },
    );
    lemma_mul_nonnegative(g, body.properties.stop_bonus);
    lemma_mul_nonnegative(g.mul(body.properties.stop_bonus), dt);
}

/// A body with no acceleration and no velocity is not moved by a step, and
/// is at rest after it. The limit on its speed must not be negative, and
/// friction, where it acts, must not give speed.
pub proof fn lemma_rest_step(body: Body, map: &TileMap, dt: Fixed)
    requires
        at_rest(body),
        body.properties.max_vel_x.raw >= 0,
        body.on_ground ==> friction_loss(body.properties, dt).raw >= 0,
    ensures
        step(body, map, dt).position == body.position,
        at_rest(step(body, map, dt)),
        step(body, map, dt).properties == body.properties,
        !step(body, map, dt).on_ground,
{
    let zero = Fixed::zero();
    lemma_mul_zero(zero, dt);
    lemma_mul_zero(zero, zero);
    assert(forced_velocity(body, dt) == Vec2::<Fixed>::zero());
    lemma_mul_zero(zero.mul(dt), Fixed { raw: PIXEL_SCALE });
}

/// A body with no acceleration and no velocity stays where it is, however
/// many steps are taken.
pub proof fn lemma_rest_is_kept(body: Body, map: &TileMap, dt: Fixed, n: nat)
    requires
        at_rest(body),
        body.properties.max_vel_x.raw >= 0,
        body.on_ground ==> friction_loss(body.properties, dt).raw >= 0,
    ensures
        steps(body, map, dt, n).position == body.position,
    decreases n,
{
    if n > 0 {
        lemma_rest_step(body, map, dt);
        lemma_rest_is_kept(step(body, map, dt), map, dt, (n - 1) as nat);
    }
}

/// While the air does not resist, a step that leaves the body in the air
/// has added exactly `acceleration.y * dt` to its vertical velocity.
pub proof fn lemma_free_fall(body: Body, map: &TileMap, dt: Fixed)
    requires
        body.velocity.length_sqr().raw <= DRAG_FLOOR,
        !step(body, map, dt).on_ground,
    ensures
        step(body, map, dt).velocity.y == body.velocity.y.add(body.acceleration.y.mul(dt)),
{
}

/// No tile of the grid is solid.
pub open spec fn open_grid(map: &TileMap) -> bool {
    forall|x: int, y: int| map.in_grid(x, y) ==> !#[trigger] map.solid_at(x, y)
}

/// The vertical velocity of a body after the forces have acted for `dt`
/// seconds, while the air does not resist.
pub open spec fn fallen(body: Body, dt: Fixed) -> Fixed {
    body.velocity.y.add(body.acceleration.y.mul(dt))
}

/// Free fall: in a grid without solid tiles, a body in the air that
/// neither moves nor is pushed sideways, and is too slow for the air to
/// resist, gains exactly `acceleration.y * dt` of downward velocity in a
/// step and moves down by what that velocity covers in `dt` seconds. It
/// stays in the air and keeps its x coordinate. The fall must end above
/// the last row of the grid, which stands for the ground.
pub proof fn lemma_free_fall_in_open_grid(body: Body, map: &TileMap, dt: Fixed)
    requires
        map.tileset.tile_size > 0,
        map.height >= 1,
        open_grid(map),
        !body.on_ground,
        body.velocity.x.raw == 0,
        body.acceleration.x.raw == 0,
        body.velocity.length_sqr().raw <= DRAG_FLOOR,
        body.properties.max_vel_x.raw >= 0,
        fallen(body, dt).raw >= 0,
        0 <= travel(fallen(body, dt), dt).raw <= tile_edge(map.height - 1, map).sub(
            body.world_bounds().bottom(),
        ).raw,
    ensures
        step(body, map, dt).velocity == (Vec2 { x: Fixed::zero(), y: fallen(body, dt) }),
        step(body, map, dt).position == (Vec2 {
            x: body.position.x,
            y: body.position.y.add(travel(fallen(body, dt), dt)),
        }),
        !step(body, map, dt).on_ground,
        !step(body, map, dt).hit_wall,
{
    let zero = Fixed::zero();
    lemma_mul_zero(body.acceleration.x, dt);
    lemma_mul_zero(zero, dt);
    let forced = forced_velocity(body, dt);
    assert(forced == (Vec2 { x: zero, y: fallen(body, dt) }));
    lemma_mul_zero(zero.mul(dt), Fixed { raw: PIXEL_SCALE });
    let moved = Body { velocity: forced, hit_wall: false, ..body };
    assert(moved_x(Body { velocity: forced, ..body }, map, dt) == moved);
    let bounds = moved.world_bounds();
    let lo = tile_floor(bounds.left(), map);
    let hi = lesser(map.width as int, tile_ceil(bounds.right(), map));
    let start = tile_ceil(bounds.bottom(), map);
    lemma_scan_up(map, false, start, map.height - 1, lo, hi);
    let row = scan_up(map, false, start, map.height - 1, lo, hi);
    if row < map.height - 1 {
        let j = choose|j: int|
            lo <= j < hi && #[trigger] cell_solid(map, false, row, j);
        assert(map.in_grid(j, row));
        assert(map.solid_at(j, row));
    }
}

/// A horizontal movement that is longer than the room there is ends exactly
/// at the limit, takes the horizontal velocity away, and is reported.
pub proof fn lemma_blocked_stops_at_limit(body: Body, map: &TileMap, dt: Fixed)
    requires
        blocked(
            travel(forced_velocity(body, dt).x, dt),
            limit_x(
                body.world_bounds(),
                forced_velocity(body, dt).x,
                map,
                travel(forced_velocity(body, dt).x, dt),
            ),
        ),
    ensures
        step(body, map, dt).position.x == body.position.x.add(
            limit_x(
                body.world_bounds(),
                forced_velocity(body, dt).x,
                map,
                travel(forced_velocity(body, dt).x, dt),
            ),
        ),
        step(body, map, dt).velocity.x == Fixed::zero(),
        step(body, map, dt).hit_wall,
{
}

/// For a body that moves right, the room there is ends at the left edge of
/// the first column that has a solid tile in the rows `lo..hi` that the body
/// spans. The last column of the grid stands for its edge: the room ends at
/// that column in any case.
pub proof fn lemma_limit_is_first_solid_column(
    body: Body,
    map: &TileMap,
    wanted: Fixed,
    column: int,
    lo: int,
    hi: int,
)
    requires
        body.velocity.x.raw >= 0,
        wanted.raw != 0,
        lo == tile_floor(body.world_bounds().top(), map),
        hi == lesser(map.height as int, tile_ceil(body.world_bounds().bottom(), map)),
        tile_ceil(body.world_bounds().right(), map) <= column <= map.width - 1,
        column < map.width - 1 ==> line_blocked(map, true, column, lo, hi),
        forall|i: int|
            tile_ceil(body.world_bounds().right(), map) <= i < column ==> !line_blocked(
                map,
                true,
                i,
                lo,
                hi,
            ),
    ensures
        limit_x(body.world_bounds(), body.velocity.x, map, wanted) == tile_edge(column, map).sub(
            body.world_bounds().right(),
        ),
{
    lemma_scan_up(map, true, tile_ceil(body.world_bounds().right(), map), map.width - 1, lo, hi);
}

/// For a body that moves down, the room there is ends at the top edge of
/// the first row that has a solid tile in the columns `lo..hi` that the body
/// spans. The last row of the grid stands for its edge: the room ends at
/// that row in any case.
pub proof fn lemma_limit_is_first_solid_row(
    body: Body,
    map: &TileMap,
    wanted: Fixed,
    row: int,
    lo: int,
    hi: int,
)
    requires
        body.velocity.y.raw >= 0,
        wanted.raw != 0,
        lo == tile_floor(body.world_bounds().left(), map),
        hi == lesser(map.width as int, tile_ceil(body.world_bounds().right(), map)),
        tile_ceil(body.world_bounds().bottom(), map) <= row <= map.height - 1,
        row < map.height - 1 ==> line_blocked(map, false, row, lo, hi),
        forall|i: int|
            tile_ceil(body.world_bounds().bottom(), map) <= i < row ==> !line_blocked(
                map,
                false,
                i,
                lo,
                hi,
            ),
    ensures
        limit_y(body.world_bounds(), body.velocity.y, map, wanted) == tile_edge(row, map).sub(
            body.world_bounds().bottom(),
        ),
{
    lemma_scan_up(map, false, tile_ceil(body.world_bounds().bottom(), map), map.height - 1, lo, hi);
}

/// Friction never turns a velocity around: what is left of it has the sign
/// that it had, or is zero. Where friction takes speed away, what is left is
/// no faster than before.
pub proof fn lemma_slowed_keeps_sign(velocity_x: Fixed, loss: Fixed)
    ensures
        velocity_x.raw >= 0 ==> slowed(velocity_x, loss).raw >= 0,
        velocity_x.raw < 0 ==> slowed(velocity_x, loss).raw <= 0,
        loss.raw >= 0 && velocity_x.raw >= 0 ==> slowed(velocity_x, loss).raw <= velocity_x.raw,
        loss.raw >= 0 && velocity_x.raw <= 0 ==> slowed(velocity_x, loss).raw >= velocity_x.raw,
{
}

/// A body that coasts to the right on the ground, too slow for the air to
/// resist, is not turned around by a step and does not gain speed.
pub proof fn lemma_coasting_slows(body: Body, map: &TileMap, dt: Fixed)
    requires
        body.acceleration.x.raw == 0,
        body.velocity.x.raw >= 0,
        body.velocity.length_sqr().raw <= DRAG_FLOOR,
        body.properties.max_vel_x.raw >= 0,
        friction_loss(body.properties, dt).raw >= 0,
    ensures
        0 <= step(body, map, dt).velocity.x.raw <= body.velocity.x.raw,
        step(body, map, dt).acceleration == body.acceleration,
        step(body, map, dt).properties == body.properties,
{
}

/// After a step the horizontal speed is within the limit of the body,
/// whatever it was before.
pub proof fn lemma_speed_is_limited(body: Body, map: &TileMap, dt: Fixed)
    ensures
        body.properties.max_vel_x.raw >= 0 ==> -body.properties.max_vel_x.raw <= step(
            body,
            map,
            dt,
        ).velocity.x.raw <= body.properties.max_vel_x.raw,
        body.properties.max_vel_x.raw < 0 ==> body.properties.max_vel_x.raw <= step(
            body,
            map,
            dt,
        ).velocity.x.raw <= -body.properties.max_vel_x.raw,
{
}

} // verus!
