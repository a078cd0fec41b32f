//! Objects of the world and the physics that moves them.

use crate::controller::Controller;
use crate::entity::body::{
    cell_solid, clamped, drag, friction_applies, lemma_scan_down, lemma_scan_up, limit_x, limit_y,
    line_blocked, playable, scan_down, scan_up, step, within, Body, PhysicalProperties,
    AIR_DENSITY, DRAG_FLOOR, GRAVITY, GROUND_FRICTION, HALF, PIXEL_SCALE,
};
use crate::fixed::Fixed;
use crate::gmath::shapes::Rect;
use crate::gmath::vectors::Vec2;
use crate::map::{edge, end_tile, first_tile, tile_floor, TileMap};
use crate::sprite::Blit;
use vstd::prelude::*;

pub mod blocks;
pub mod body;
pub mod creature;
pub mod theorems;

verus! {

/// An update of `secs` seconds in `map` may turn the entity `before` into
/// `after`: its controller steers the object, and the object that comes of
/// that is updated.
pub open spec fn stepped<A: Object, B: Controller<A>>(
    before: Entity<A, B>,
    after: Entity<A, B>,
    map: &TileMap,
    secs: Fixed,
) -> bool {
    exists|steered: A|
        {
            &&& #[trigger] before.controller.steers(&after.controller, before.object, steered, secs)
            &&& after.object == steered.updated_spec(map, secs)
        }
}

/// Structure for an entity. An entity consists of an object and a
/// controller. The controller can be used to support AI as well as user
/// input control.
pub struct Entity<A, B> {
    pub object: A,
    pub controller: B,
}

impl<A: Object, B: Controller<A>> Entity<A, B> {
    /// Lets the controller act on the object, then updates the object.
    pub fn update(&mut self, map: &TileMap, secs: Fixed)
        requires
            old(self).object.can_update(map),
        ensures
            stepped(*old(self), *final(self), map, secs),
    {
        let ghost before = *self;
        // Update the controller
        self.controller.update(&mut self.object, secs);
        let ghost steered = self.object;
        proof {
            before.controller.lemma_steers(&self.controller, before.object, steered, secs);
            before.object.lemma_can_update(&steered, map);
        }
        // Update the object
        self.object.update(map, secs);
        assert(before.controller.steers(&self.controller, before.object, steered, secs));
    }

    /// Says how to draw the object, as seen from `camera`.
    pub fn draw(&self, camera: Vec2<Fixed>) -> (b: Blit)
        requires
            self.object.drawable(),
        ensures
            b == self.object.draw_spec(camera),
    {
        self.object.draw(camera)
    }
}

/// Objects are things that have a place in the world and can be drawn.
pub trait Object: Sized {
    /// The object's position.
    spec fn position_spec(&self) -> Vec2<Fixed>;

    /// The object's physical bounds, in world coordinates.
    spec fn bounds_spec(&self) -> Rect;

    /// The object put at `new_pos`.
    spec fn moved_spec(&self, new_pos: Vec2<Fixed>) -> Self;

    /// Whether the object can be updated in `map`.
    spec fn can_update(&self, map: &TileMap) -> bool;

    /// The object after `secs` seconds in `map`.
    spec fn updated_spec(&self, map: &TileMap, secs: Fixed) -> Self;

    /// Whether the object can be drawn.
    spec fn drawable(&self) -> bool;

    /// How the object is drawn, as seen from `camera`.
    spec fn draw_spec(&self, camera: Vec2<Fixed>) -> Blit;

    /// Whether an object can be updated in a map depends on its bounds alone.
    proof fn lemma_can_update(&self, other: &Self, map: &TileMap)
        requires
            self.can_update(map),
            other.bounds_spec() == self.bounds_spec(),
        ensures
            other.can_update(map),
    ;

    /// An object that was put somewhere is there.
    proof fn lemma_moved(&self, new_pos: Vec2<Fixed>)
        ensures
            self.moved_spec(new_pos).position_spec() == new_pos,
    ;

    /// Gets the object's position.
    fn position(&self) -> (r: Vec2<Fixed>)
        ensures
            r == self.position_spec(),
    ;

    /// Sets the object's position.
    fn set_position(&mut self, new_pos: Vec2<Fixed>)
        ensures
            *final(self) == old(self).moved_spec(new_pos),
    ;

    /// Gets the object's bounds.
    fn bounds(&self) -> (r: Rect)
        ensures
            r == self.bounds_spec(),
    ;

    /// Updates the object by `secs` seconds in `map`.
    fn update(&mut self, map: &TileMap, secs: Fixed)
        requires
            old(self).can_update(map),
        ensures
            *final(self) == old(self).updated_spec(map, secs),
    ;

    /// Says how to draw the object, as seen from `camera`.
    fn draw(&self, camera: Vec2<Fixed>) -> (b: Blit)
        requires
            self.drawable(),
        ensures
            b == self.draw_spec(camera),
    ;
}

/// Objects that physics can be applied on: they carry a [`Body`].
pub trait Physics: Object {
    /// The physical state of the object.
    spec fn body_spec(&self) -> Body;

    /// The object with its physical state replaced by `body`.
    spec fn with_body(&self, body: Body) -> Self;

    /// The physical state can be replaced, and holds the object's position
    /// and bounds: putting the object somewhere puts its body there.
    proof fn lemma_body(&self, body: Body, new_pos: Vec2<Fixed>)
        ensures
            self.with_body(body).body_spec() == body,
            self.with_body(self.body_spec()) == *self,
            self.position_spec() == self.body_spec().position,
            self.bounds_spec() == self.body_spec().world_bounds(),
            self.moved_spec(new_pos) == self.with_body(
                Body { position: new_pos, ..self.body_spec() },
            ),
    ;

    /// Gets the object's acceleration.
    fn acceleration(&self) -> (r: Vec2<Fixed>)
        ensures
            r == self.body_spec().acceleration,
    ;

    /// Sets the object's acceleration.
    fn set_acceleration(&mut self, new_accel: Vec2<Fixed>)
        ensures
            *final(self) == old(self).with_body(
                Body { acceleration: new_accel, ..old(self).body_spec() },
            ),
    ;

    /// Gets the object's velocity.
    fn velocity(&self) -> (r: Vec2<Fixed>)
        ensures
            r == self.body_spec().velocity,
    ;

    /// Sets the object's velocity.
    fn set_velocity(&mut self, new_vel: Vec2<Fixed>)
        ensures
            *final(self) == old(self).with_body(Body { velocity: new_vel, ..old(self).body_spec() }),
    ;

    /// Checks if the object is on the ground.
    fn is_on_ground(&self) -> (r: bool)
        ensures
            r == self.body_spec().on_ground,
    ;

    /// Sets that the object is on the ground or in the air.
    fn set_on_ground(&mut self, value: bool)
        ensures
            *final(self) == old(self).with_body(Body { on_ground: value, ..old(self).body_spec() }),
    ;

    /// Sets that the object is hitting a wall or not.
    fn set_hit_wall(&mut self, value: bool)
        ensures
            *final(self) == old(self).with_body(Body { hit_wall: value, ..old(self).body_spec() }),
    ;

    /// Gets the object's physical properties.
    fn get_properties(&self) -> (r: PhysicalProperties)
        ensures
            r == self.body_spec().properties,
    ;
}

/// Whether friction should be applied on a body: its horizontal
/// acceleration is zero (so that friction does not fight control), or it
/// moves against its acceleration.
pub fn apply_friction(body: &Body) -> (r: bool)
    ensures
        r == friction_applies(body.acceleration.x, body.velocity.x),
{
    let a = body.acceleration.x.raw;
    let v = body.velocity.x.raw;
    a == 0 || (v != 0 && ((v < 0) != (a < 0)))
}

/// Lowers `value` to `max`, then raises it to `min`.
pub fn clamp(value: Fixed, min: Fixed, max: Fixed) -> (r: Fixed)
    ensures
        r == clamped(value, min, max),
{
    value.min(max).max(min)
}

/// Calculates the acceleration by air resistance that acts on a body,
/// against the direction of its velocity.
pub fn air_resistance(body: &Body) -> (r: Vec2<Fixed>)
    ensures
        r == drag(body.velocity, body.properties),
{
    let speed_squared = body.velocity.length_sqr();
    if speed_squared.raw > DRAG_FLOOR {
        let properties = body.properties;
        let force = Fixed { raw: HALF }.mul(Fixed { raw: AIR_DENSITY }).mul(speed_squared).mul(
            properties.c_drag,
        ).mul(properties.cross_area);
        body.velocity.unit().mul(force.neg().div(properties.mass))
    } else {
        Vec2::<Fixed>::zero()
    }
}

/// Whether column `x` has a solid tile in the rows `start_y..end_y`.
fn column_solid(map: &TileMap, x: usize, start_y: usize, end_y: usize) -> (r: bool)
    requires
        map.wf(),
        x < map.width,
        end_y <= map.height,
    ensures
        r == line_blocked(map, true, x as int, start_y as int, end_y as int),
{
    let mut y: usize = start_y;
    while y < end_y
        invariant
            map.wf(),
            x < map.width,
            end_y <= map.height,
            start_y <= y,
            forall|j: int| start_y <= j < y ==> !cell_solid(map, true, x as int, j),
        decreases end_y - y,
    {
        if map.tile_info_at(x, y).solid {
            assert(cell_solid(map, true, x as int, y as int));
            return true;
        }
        y += 1;
    }
    false
}

/// Whether row `y` has a solid tile in the columns `start_x..end_x`.
fn row_solid(map: &TileMap, y: usize, start_x: usize, end_x: usize) -> (r: bool)
    requires
        map.wf(),
        y < map.height,
        end_x <= map.width,
    ensures
        r == line_blocked(map, false, y as int, start_x as int, end_x as int),
{
    let mut x: usize = start_x;
    while x < end_x
        invariant
            map.wf(),
            y < map.height,
            end_x <= map.width,
            start_x <= x,
            forall|j: int| start_x <= j < x ==> !cell_solid(map, false, y as int, j),
        decreases end_x - x,
    {
        if map.tile_info_at(x, y).solid {
            assert(cell_solid(map, false, y as int, x as int));
            return true;
        }
        x += 1;
    }
    false
}

/// Scans for solid tiles in the x direction.
///
/// Walks the columns from `start_x` toward `end_x`, upward when `dir_x` is
/// positive and downward otherwise, and of each looks at the rows
/// `start_y..end_y`. Returns the first column that has a solid tile there,
/// or `end_x` when no column before it has one.
pub fn scan_tiles_x(
    map: &TileMap,
    start_x: usize,
    end_x: usize,
    dir_x: i32,
    start_y: usize,
    end_y: usize,
) -> (tile: usize)
    requires
        map.wf(),
        end_y <= map.height,
        dir_x > 0 ==> end_x < map.width,
        dir_x <= 0 ==> start_x < map.width,
    ensures
        dir_x > 0 ==> tile == scan_up(
            map,
            true,
            start_x as int,
            end_x as int,
            start_y as int,
            end_y as int,
        ),
        dir_x <= 0 ==> tile == scan_down(
            map,
            true,
            start_x as int,
            end_x as int,
            start_y as int,
            end_y as int,
        ),
{
    let mut x: usize = start_x;
    if dir_x > 0 {
        while x < end_x
            invariant
                map.wf(),
                end_y <= map.height,
                end_x < map.width,
                dir_x > 0,
                scan_up(map, true, x as int, end_x as int, start_y as int, end_y as int) == scan_up(
                    map,
                    true,
                    start_x as int,
                    end_x as int,
                    start_y as int,
                    end_y as int,
                ),
            decreases end_x - x,
        {
            if column_solid(map, x, start_y, end_y) {
                return x;
            }
            x += 1;
        }
    } else {
        while x > end_x
            invariant
                map.wf(),
                end_y <= map.height,
                x < map.width,
                dir_x <= 0,
                scan_down(map, true, x as int, end_x as int, start_y as int, end_y as int)
                    == scan_down(
                    map,
                    true,
                    start_x as int,
                    end_x as int,
                    start_y as int,
                    end_y as int,
                ),
            decreases x - end_x,
        {
            if column_solid(map, x, start_y, end_y) {
                return x;
            }
            x -= 1;
        }
    }
    end_x
}

/// Scans for solid tiles in the y direction.
///
/// Walks the rows from `start_y` toward `end_y`, upward when `dir_y` is
/// positive and downward otherwise, and of each looks at the columns
/// `start_x..end_x`. Returns the first row that has a solid tile there, or
/// `end_y` when no row before it has one.
pub fn scan_tiles_y(
    map: &TileMap,
    start_y: usize,
    end_y: usize,
    dir_y: i32,
    start_x: usize,
    end_x: usize,
) -> (tile: usize)
    requires
        map.wf(),
        end_x <= map.width,
        dir_y > 0 ==> end_y < map.height,
        dir_y <= 0 ==> start_y < map.height,
    ensures
        dir_y > 0 ==> tile == scan_up(
            map,
            false,
            start_y as int,
            end_y as int,
            start_x as int,
            end_x as int,
        ),
        dir_y <= 0 ==> tile == scan_down(
            map,
            false,
            start_y as int,
            end_y as int,
            start_x as int,
            end_x as int,
        ),
{
    let mut y: usize = start_y;
    if dir_y > 0 {
        while y < end_y
            invariant
                map.wf(),
                end_x <= map.width,
                end_y < map.height,
                dir_y > 0,
                scan_up(map, false, y as int, end_y as int, start_x as int, end_x as int)
                    == scan_up(
                    map,
                    false,
                    start_y as int,
                    end_y as int,
                    start_x as int,
                    end_x as int,
                ),
            decreases end_y - y,
        {
            if row_solid(map, y, start_x, end_x) {
                return y;
            }
            y += 1;
        }
    } else {
        while y > end_y
            invariant
                map.wf(),
                end_x <= map.width,
                y < map.height,
                dir_y <= 0,
                scan_down(map, false, y as int, end_y as int, start_x as int, end_x as int)
                    == scan_down(
                    map,
                    false,
                    start_y as int,
                    end_y as int,
                    start_x as int,
                    end_x as int,
                ),
            decreases y - end_y,
        {
            if row_solid(map, y, start_x, end_x) {
                return y;
            }
            y -= 1;
        }
    }
    end_y
}

/// Calculates the maximum distance the body can travel in the x direction:
/// up to the nearest solid tile in its way, or to the edge of the grid.
pub fn map_collision_x(body: &Body, map: &TileMap, max_dist: Fixed) -> (r: Fixed)
    requires
        playable(map),
        tile_floor(body.world_bounds().left(), map) < map.width,
    ensures
        r == limit_x(body.world_bounds(), body.velocity.x, map, max_dist),
{
    if max_dist.raw != 0 {
        let bounds = body.bounds();
        // Map bounds
        let map_right: usize = map.width - 1;
        // Calculate the range of y values to check
        let start_y: u64 = first_tile(bounds.top(), map);
        let below: u64 = end_tile(bounds.bottom(), map);
        let end_y: usize = if below < map.height as u64 {
            below as usize
        } else {
            map.height
        };
        if body.velocity.x.raw < 0 {
            let start_x: u64 = first_tile(bounds.left(), map);
            proof {
                lemma_scan_down(map, true, start_x as int, 0, start_y as int, end_y as int);
            }
            // Check the tiles for collision
            let tile: usize = if start_y >= end_y as u64 {
                0
            } else {
                scan_tiles_x(map, start_x as usize, 0, -1, start_y as usize, end_y)
            };
            // Calculate the new maximum distance
            edge(tile as u64 + 1, map).sub(bounds.left())
        } else {
            let start_x: u64 = end_tile(bounds.right(), map);
            proof {
                lemma_scan_up(
                    map,
                    true,
                    start_x as int,
                    map_right as int,
                    start_y as int,
                    end_y as int,
                );
            }
            let tile: usize = if start_y >= end_y as u64 || start_x > map_right as u64 {
                map_right
            } else {
                scan_tiles_x(map, start_x as usize, map_right, 1, start_y as usize, end_y)
            };
            edge(tile as u64, map).sub(bounds.right())
        }
    } else {
        // The body will not move at all
        Fixed::zero()
    }
}

/// Calculates the maximum distance the body can travel in the y direction:
/// up to the nearest solid tile in its way, or to the edge of the grid.
pub fn map_collision_y(body: &Body, map: &TileMap, max_dist: Fixed) -> (r: Fixed)
    requires
        playable(map),
        tile_floor(body.world_bounds().top(), map) < map.height,
    ensures
        r == limit_y(body.world_bounds(), body.velocity.y, map, max_dist),
{
    if max_dist.raw != 0 {
        let bounds = body.bounds();
        // Map bounds
        let map_bottom: usize = map.height - 1;
        // Calculate the range of x values to check
        let start_x: u64 = first_tile(bounds.left(), map);
        let beside: u64 = end_tile(bounds.right(), map);
        let end_x: usize = if beside < map.width as u64 {
            beside as usize
        } else {
            map.width
        };
        if body.velocity.y.raw < 0 {
            let start_y: u64 = first_tile(bounds.top(), map);
            proof {
                lemma_scan_down(map, false, start_y as int, 0, start_x as int, end_x as int);
            }
            // Check the tiles for collision
            let tile: usize = if start_x >= end_x as u64 {
                0
            } else {
                scan_tiles_y(map, start_y as usize, 0, -1, start_x as usize, end_x)
            };
            // Calculate the new maximum distance
            edge(tile as u64 + 1, map).sub(bounds.top())
        } else {
            let start_y: u64 = end_tile(bounds.bottom(), map);
            proof {
                lemma_scan_up(
                    map,
                    false,
                    start_y as int,
                    map_bottom as int,
                    start_x as int,
                    end_x as int,
                );
            }
            let tile: usize = if start_x >= end_x as u64 || start_y > map_bottom as u64 {
                map_bottom
            } else {
                scan_tiles_y(map, start_y as usize, map_bottom, 1, start_x as usize, end_x)
            };
            edge(tile as u64, map).sub(bounds.bottom())
        }
    } else {
        // The body will not move at all
        Fixed::zero()
    }
}

/// Checks that `map` can be moved in and that `body` has not left its grid
/// to the right or downward: that a step can be taken.
pub fn can_step(body: &Body, map: &TileMap) -> (ok: bool)
    ensures
        ok == (playable(map) && within(body.world_bounds(), map)),
{
    if map.width < 1 || map.height < 1 || map.tileset.tile_size <= 0 {
        return false;
    }
    if !map.is_wf() {
        return false;
    }
    let bounds = body.bounds();
    first_tile(bounds.left(), map) < map.width as u64 && first_tile(bounds.top(), map)
        < map.height as u64
}

/// Updates a body based on physics: advances it by `dt` seconds in `map`.
///
/// The velocity takes up the acceleration, air resistance, ground friction
/// and the limit on horizontal speed. The body then moves along x as far as
/// the tiles allow, and after that along y. A movement that the tiles cut
/// short ends at the tile's edge and takes the velocity on that axis away.
///
/// The body must not have left the grid to the right or downward.
pub fn physics(body: &mut Body, map: &TileMap, dt: Fixed)
    requires
        playable(map),
        within(old(body).world_bounds(), map),
    ensures
        *final(body) == step(*old(body), map, dt),
{
    let mut new_velocity = body.velocity;
    // Increase velocity due to acceleration
    new_velocity = new_velocity.add(&body.acceleration.mul(dt));
    // Decrease velocity due to air resistance
    new_velocity = new_velocity.add(&air_resistance(body).mul(dt));
    // Decrease X velocity due to friction
    if body.on_ground && apply_friction(body) {
        let friction = Fixed { raw: GROUND_FRICTION }.mul(Fixed { raw: GRAVITY }).mul(
            body.properties.stop_bonus,
        ).mul(dt);
        new_velocity.x = if new_velocity.x.raw < 0 {
            new_velocity.x.add(friction).min(Fixed::zero())
        } else {
            new_velocity.x.sub(friction).max(Fixed::zero())
        };
    }
    // Ensure that the velocity doesn't get too high
    let max_vel = body.properties.max_vel_x;
    new_velocity.x = clamp(new_velocity.x, max_vel.neg(), max_vel);
    body.velocity = new_velocity;

    let mut new_position = body.position;
    // Calculate the new x position
    let move_x = body.velocity.x.mul(dt).mul(Fixed { raw: PIXEL_SCALE });
    let collision_x = map_collision_x(body, map, move_x);
    if move_x.abs().raw > collision_x.abs().raw {
        new_position.x = new_position.x.add(collision_x);
        new_velocity.x = Fixed::zero();
        body.hit_wall = true;
    } else {
        new_position.x = new_position.x.add(move_x);
        body.hit_wall = false;
    }
    body.position = new_position;

    // Calculate the new y position
    let move_y = new_velocity.y.mul(dt).mul(Fixed { raw: PIXEL_SCALE });
    let collision_y = map_collision_y(body, map, move_y);
    if move_y.abs().raw > collision_y.abs().raw {
        new_position.y = new_position.y.add(collision_y);
        new_velocity.y = Fixed::zero();
        body.on_ground = true;
    } else {
        new_position.y = new_position.y.add(move_y);
        body.on_ground = false;
    }
    body.position = new_position;

    body.velocity = new_velocity;
}

} // verus!
