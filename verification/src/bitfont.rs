//! Text set in a font whose characters are the frames of a sprite.

use crate::fixed::Fixed;
use crate::gmath::vectors::Vec2;
use crate::sprite::{Blit, Sprite, TextureId};
use vstd::prelude::*;
use vstd::string::StringSliceAdditionalSpecFns;

verus! {

/// A bitfont that can be used for rendering text.
#[derive(Clone, Copy, Debug)]
pub struct BitFont {
    /// The code of the character in the first frame.
    pub ascii_offset: u8,
    /// One frame per character, side by side.
    pub sprite: Sprite,
}

/// Line feed: starts a new line.
pub const LINE_FEED: u8 = 10;

/// Carriage return: left out.
pub const CARRIAGE_RETURN: u8 = 13;

impl BitFont {
    /// The font has a picture for the byte `c`.
    pub open spec fn has_char(&self, c: u8) -> bool {
        self.ascii_offset <= c && self.sprite.has_frame(
            Vec2 { x: (c - self.ascii_offset) as u32, y: 0 },
        )
    }

    /// The font can set `text`: it has a picture for every byte of it that
    /// is not a line feed or a carriage return.
    pub open spec fn can_set(&self, text: Seq<u8>) -> bool {
        forall|i: int|
            0 <= i < text.len() && text[i] != LINE_FEED && text[i] != CARRIAGE_RETURN
                ==> self.has_char(#[trigger] text[i])
    }

    /// How `text` is drawn with the pen at `pen`, on lines that start at
    /// the x coordinate `left`: byte after byte, each one frame wide. A line
    /// feed takes the pen to the start of the next line, one frame further
    /// down, and a carriage return does nothing.
    pub open spec fn set(&self, left: Fixed, pen: Vec2<Fixed>, text: Seq<u8>) -> Seq<Blit>
        decreases text.len(),
    {
        if text.len() == 0 {
            Seq::empty()
        } else if text[0] == LINE_FEED {
            self.set(
                left,
                Vec2 { x: left, y: pen.y.add(Fixed::from_int(self.sprite.frame_height as i64)) },
                text.skip(1),
            )
        } else if text[0] == CARRIAGE_RETURN {
            self.set(left, pen, text.skip(1))
        } else {
            seq![
                self.sprite.draw_spec(
                    Vec2 { x: (text[0] - self.ascii_offset) as u32, y: 0 },
                    pen,
                    false,
                ),
            ] + self.set(
                left,
                Vec2 { x: pen.x.add(Fixed::from_int(self.sprite.frame_width as i64)), y: pen.y },
                text.skip(1),
            )
        }
    }

    /// Creates a new bitfont: `num_chars` characters from the code
    /// `ascii_offset` on, each `char_width` by `char_height` pixels, side by
    /// side on `texture`.
    pub fn new(
        ascii_offset: u8,
        num_chars: u32,
        char_width: u32,
        char_height: u32,
        texture: TextureId,
    ) -> (font: BitFont)
        ensures
            font == (BitFont {
                ascii_offset,
                sprite: Sprite {
                    spritesheet: texture,
                    offset: Vec2 { x: 0, y: 0 },
                    frame_width: char_width,
                    frame_height: char_height,
                    num_frames_x: num_chars,
                    num_frames_y: 1,
                },
            }),
    {
        BitFont {
            ascii_offset,
            sprite: Sprite {
                spritesheet: texture,
                offset: Vec2::new(0, 0),
                frame_width: char_width,
                frame_height: char_height,
                num_frames_x: num_chars,
                num_frames_y: 1,
            },
        }
    }

    /// Says how to draw `text` from `position` on.
    pub fn draw_text(&self, position: Vec2<Fixed>, text: &str) -> (blits: Vec<Blit>)
        requires
            self.can_set(text.spec_bytes()),
        ensures
            blits@ == self.set(position.x, position, text.spec_bytes()),
    {
        let bytes = text.as_bytes();
        let mut blits: Vec<Blit> = Vec::new();
        let mut pos = position;
        let mut i: usize = 0;
        assert(bytes@.skip(0) == bytes@);
        assert(blits@ + self.set(position.x, position, bytes@) == self.set(
            position.x,
            position,
            bytes@,
        ));
        while i < bytes.len()
            invariant
                i <= bytes@.len(),
                self.can_set(bytes@),
                blits@ + self.set(position.x, pos, bytes@.skip(i as int)) == self.set(
                    position.x,
                    position,
                    bytes@,
                ),
            decreases bytes@.len() - i,
        {
            let c = bytes[i];
            let ghost rest = bytes@.skip(i as int);
            assert(rest.len() > 0 && rest[0] == c);
            assert(rest.skip(1) == bytes@.skip(i + 1));
            if c == LINE_FEED {
                pos.y = pos.y.add(Fixed::from_int(self.sprite.frame_height as i64));
                pos.x = position.x;
            } else if c == CARRIAGE_RETURN {
                // Discard
            } else {
                let frame = c - self.ascii_offset;
                let blit = self.sprite.draw(Vec2::new(frame as u32, 0), pos, false);
                let ghost before = blits@;
                blits.push(blit);
                pos.x = pos.x.add(Fixed::from_int(self.sprite.frame_width as i64));
                assert(blits@ + self.set(position.x, pos, bytes@.skip(i + 1)) == before + (seq![
                    blit,
                ] + self.set(position.x, pos, bytes@.skip(i + 1))));
            }
            i += 1;
        }
        assert(bytes@.skip(bytes@.len() as int).len() == 0);
        assert(blits@ + Seq::<Blit>::empty() == blits@);
        blits
    }
}

} // verus!
