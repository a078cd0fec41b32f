//! Creatures: animated objects that physics acts on.

use crate::entity::body::{playable, step, within, Body, PhysicalProperties, GRAVITY};
use crate::entity::{physics, Object, Physics};
use crate::fixed::Fixed;
use crate::gmath::shapes::Rect;
use crate::gmath::vectors::Vec2;
use crate::map::TileMap;
use crate::sprite::{Animation, AnimationPlayer, Blit};
use vstd::prelude::*;

verus! {

/// The animations of a creature, one for each thing it can be doing.
#[derive(Clone, Copy, Debug)]
pub struct CreatureAnimations {
    pub idle: Animation,
    pub walk: Animation,
    pub jump: Animation,
    pub fall: Animation,
}

/// An animated object that walks and jumps.
#[derive(Clone, Copy, Debug)]
pub struct Creature {
    /// Acceleration, velocity, position, bounds, contact flags and properties.
    pub body: Body,
    pub base_hitbox: Rect,
    /// The horizontal acceleration of the creature when it walks.
    pub move_accel: Fixed,
    /// The upward velocity that a jump gives.
    pub jump_accel: Fixed,
    pub animations: CreatureAnimations,
    pub animation_player: AnimationPlayer,
}

/// The animation player of a creature with the animation that fits what
/// `body` does, before time passes for it.
///
/// A creature looks the way it is pushed. On the ground it idles when it
/// neither moves nor is pushed, and walks otherwise, the faster it moves
/// the faster. In the air it falls while it moves down, and jumps otherwise.
pub open spec fn posed(
    player: AnimationPlayer,
    animations: CreatureAnimations,
    body: Body,
) -> AnimationPlayer {
    let turned = if body.acceleration.x.raw != 0 {
        AnimationPlayer { flip_x: body.acceleration.x.raw < 0, ..player }
    } else {
        player
    };
    if body.on_ground {
        if body.acceleration.x.raw == 0 && body.velocity.x.raw == 0 {
            turned.play_spec(animations.idle)
        } else {
            AnimationPlayer {
                speed_up: if body.velocity.x.raw != 0 {
                    Fixed::one().div(body.velocity.x.abs())
                } else {
                    Fixed::one()
                },
                ..turned.play_spec(animations.walk)
            }
        }
    } else {
        if body.velocity.y.raw > 0 {
            turned.play_spec(animations.fall)
        } else {
            turned.play_spec(animations.jump)
        }
    }
}

impl Physics for Creature {
    open spec fn body_spec(&self) -> Body {
        self.body
    }

    open spec fn with_body(&self, body: Body) -> Creature {
        Creature { body, ..*self }
    }

    proof fn lemma_body(&self, body: Body, new_pos: Vec2<Fixed>) {
    }

    fn acceleration(&self) -> (r: Vec2<Fixed>) {
        self.body.acceleration
    }

    fn set_acceleration(&mut self, new_accel: Vec2<Fixed>) {
        self.body.acceleration = new_accel;
    }

    fn velocity(&self) -> (r: Vec2<Fixed>) {
        self.body.velocity
    }

    fn set_velocity(&mut self, new_vel: Vec2<Fixed>) {
        self.body.velocity = new_vel;
    }

    fn is_on_ground(&self) -> (r: bool) {
        self.body.on_ground
    }

    fn set_on_ground(&mut self, value: bool) {
        self.body.on_ground = value;
    }

    fn set_hit_wall(&mut self, value: bool) {
        self.body.hit_wall = value;
    }

    fn get_properties(&self) -> (r: PhysicalProperties) {
        self.body.properties
    }
}

impl Object for Creature {
    open spec fn position_spec(&self) -> Vec2<Fixed> {
        self.body.position
    }

    open spec fn bounds_spec(&self) -> Rect {
        self.body.world_bounds()
    }

    open spec fn moved_spec(&self, new_pos: Vec2<Fixed>) -> Creature {
        Creature { body: Body { position: new_pos, ..self.body }, ..*self }
    }

    /// The map can be moved in, and the creature has not left its grid to
    /// the right or downward.
    open spec fn can_update(&self, map: &TileMap) -> bool {
        playable(map) && within(self.body.world_bounds(), map)
    }

    /// The body takes one step of the physics; the animation that fits the
    /// body after it plays for `secs` seconds.
    open spec fn updated_spec(&self, map: &TileMap, secs: Fixed) -> Creature {
        let body = step(self.body, map, secs);
        Creature {
            body,
            animation_player: posed(self.animation_player, self.animations, body).update_spec(secs),
            ..*self
        }
    }

    open spec fn drawable(&self) -> bool {
        self.animation_player.wf()
    }

    open spec fn draw_spec(&self, camera: Vec2<Fixed>) -> Blit {
        self.animation_player.animation.sprite.draw_spec(
            self.animation_player.frame,
            self.body.position.sub(&camera),
            self.animation_player.flip_x,
        )
    }

    proof fn lemma_can_update(&self, other: &Creature, map: &TileMap) {
    }

    proof fn lemma_moved(&self, new_pos: Vec2<Fixed>) {
    }

    fn position(&self) -> (r: Vec2<Fixed>) {
        self.body.position
    }

    fn set_position(&mut self, new_pos: Vec2<Fixed>) {
        self.body.position = new_pos;
    }

    fn bounds(&self) -> (r: Rect) {
        self.body.bounds()
    }

    fn update(&mut self, map: &TileMap, secs: Fixed) {
        physics(&mut self.body, map, secs);

        if self.acceleration().x.abs().raw != 0 {
            let flip = self.acceleration().x.raw < 0;
            self.animation_player.flip_horizontal(flip);
        }
        // If the creature is on the ground, then it must be standing or walking
        if self.body.on_ground {
            if self.acceleration().x.raw == 0 && self.velocity().x.raw == 0 {
                self.animation_player.play(self.animations.idle);
            } else {
                self.animation_player.play(self.animations.walk);
                if self.velocity().x.raw != 0 {
                    self.animation_player.speed_up = Fixed::one().div(self.velocity().x.abs());
                } else {
                    self.animation_player.speed_up = Fixed::one();
                }
            }
        } else {
            // The creature is in the air, so it must be jumping or falling
            if self.velocity().y.raw > 0 {
                self.animation_player.play(self.animations.fall);
            } else {
                self.animation_player.play(self.animations.jump);
            }
        }
        self.animation_player.update(secs);
    }

    fn draw(&self, camera: Vec2<Fixed>) -> (b: Blit) {
        self.animation_player.draw(self.body.position.sub(&camera))
    }
}

impl Creature {
    /// A creature at `position` that stands still in the air, pulled down
    /// by gravity, and shows the first frame of its idle animation.
    pub open spec fn new_spec(
        position: Vec2<Fixed>,
        base_bounds: Rect,
        base_hitbox: Rect,
        properties: PhysicalProperties,
        move_accel: Fixed,
        jump_accel: Fixed,
        animations: CreatureAnimations,
    ) -> Creature {
        Creature {
            body: Body {
                acceleration: Vec2 { x: Fixed::zero(), y: Fixed { raw: GRAVITY } },
                velocity: Vec2::<Fixed>::zero(),
                position,
                bounds_offset: base_bounds,
                on_ground: false,
                hit_wall: false,
                properties,
            },
            base_hitbox,
            move_accel,
            jump_accel,
            animation_player: AnimationPlayer::new(animations.idle),
            animations,
        }
    }

    /// Creates a creature at `position`.
    #[verifier::when_used_as_spec(new_spec)]
    pub fn new(
        position: Vec2<Fixed>,
        base_bounds: Rect,
        base_hitbox: Rect,
        properties: PhysicalProperties,
        move_accel: Fixed,
        jump_accel: Fixed,
        animations: CreatureAnimations,
    ) -> (c: Creature)
        ensures
            c == Creature::new_spec(
                position,
                base_bounds,
                base_hitbox,
                properties,
                move_accel,
                jump_accel,
                animations,
            ),
    {
        Creature {
            body: Body {
                acceleration: Vec2::new(Fixed::zero(), Fixed { raw: GRAVITY }),
                velocity: Vec2::<Fixed>::zero(),
                position,
                bounds_offset: base_bounds,
                on_ground: false,
                hit_wall: false,
                properties,
            },
            base_hitbox,
            move_accel,
            jump_accel,
            animation_player: AnimationPlayer::new(animations.idle),
            animations,
        }
    }

    /// The middle of the creature's bounds.
    pub fn center(&self) -> (v: Vec2<Fixed>)
        ensures
            v == self.body.world_bounds().center(),
    {
        self.bounds().center()
    }
}

} // verus!
