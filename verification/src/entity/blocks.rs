//! Blocks that stand in the world and hurt.

use crate::entity::Object;
use crate::fixed::Fixed;
use crate::gmath::shapes::Rect;
use crate::gmath::vectors::Vec2;
use crate::map::TileMap;
use crate::sprite::{Animation, AnimationPlayer, Blit};
use vstd::prelude::*;

verus! {

/// An animated block that does damage.
#[derive(Clone, Copy, Debug)]
pub struct DamageBlock {
    pub block_rect: Rect,
    pub damage: Fixed,
    pub animation_player: AnimationPlayer,
}

impl DamageBlock {
    /// Creates a block that fills `block_rect` and shows `animation`.
    pub fn new(block_rect: Rect, damage: Fixed, animation: Animation) -> (b: DamageBlock)
        ensures
            b == (DamageBlock {
                block_rect,
                damage,
                animation_player: AnimationPlayer::new(animation),
            }),
    {
        DamageBlock { block_rect, damage, animation_player: AnimationPlayer::new(animation) }
    }
}

impl Object for DamageBlock {
    open spec fn position_spec(&self) -> Vec2<Fixed> {
        Vec2 { x: self.block_rect.x, y: self.block_rect.y }
    }

    open spec fn bounds_spec(&self) -> Rect {
        self.block_rect
    }

    open spec fn moved_spec(&self, new_pos: Vec2<Fixed>) -> DamageBlock {
        DamageBlock { block_rect: Rect { x: new_pos.x, y: new_pos.y, ..self.block_rect }, ..*self }
    }

    /// A block can be updated anywhere.
    open spec fn can_update(&self, map: &TileMap) -> bool {
        true
    }

    /// Only the block's animation goes on.
    open spec fn updated_spec(&self, map: &TileMap, secs: Fixed) -> DamageBlock {
        DamageBlock { animation_player: self.animation_player.update_spec(secs), ..*self }
    }

    open spec fn drawable(&self) -> bool {
        self.animation_player.wf()
    }

    open spec fn draw_spec(&self, camera: Vec2<Fixed>) -> Blit {
        self.animation_player.animation.sprite.draw_spec(
            self.animation_player.frame,
            self.position_spec().sub(&camera),
            self.animation_player.flip_x,
        )
    }

    proof fn lemma_can_update(&self, other: &DamageBlock, map: &TileMap) {
    }

    proof fn lemma_moved(&self, new_pos: Vec2<Fixed>) {
    }

    fn position(&self) -> (r: Vec2<Fixed>) {
        Vec2::new(self.block_rect.x, self.block_rect.y)
    }

    fn set_position(&mut self, new_pos: Vec2<Fixed>) {
        self.block_rect.x = new_pos.x;
        self.block_rect.y = new_pos.y;
    }

    fn bounds(&self) -> (r: Rect) {
        self.block_rect
    }

    fn update(&mut self, map: &TileMap, secs: Fixed) {
        self.animation_player.update(secs);
    }

    fn draw(&self, camera: Vec2<Fixed>) -> (b: Blit) {
        self.animation_player.draw(self.block_rect.point().sub(&camera))
    }
}

} // verus!
