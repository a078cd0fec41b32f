//! Sprite sheets and the playback of animations over them.
//!
//! Nothing here draws: a sprite says what to draw as a [`Blit`], and whoever
//! owns the textures carries it out.

use crate::fixed::Fixed;
use crate::gmath::shapes::Rect;
use crate::gmath::vectors::Vec2;
use vstd::prelude::*;

verus! {

/// A handle to a texture held by whoever draws: an index into its registry.
#[derive(Clone, Copy, Debug, PartialEq, Eq, Structural)]
pub struct TextureId(pub usize);

/// One textured rectangle to draw.
#[derive(Clone, Copy, Debug)]
pub struct Blit {
    pub texture: TextureId,
    /// Where the top left corner goes on the screen.
    pub x: Fixed,
    pub y: Fixed,
    /// The size on the screen; the texture's own size when absent.
    pub dest_size: Option<Vec2<Fixed>>,
    /// The part of the texture to draw; all of it when absent.
    pub source: Option<Rect>,
    /// Whether to mirror the picture left to right.
    pub flip_x: bool,
}

/// A grid of equally sized frames on a sprite sheet.
#[derive(Clone, Copy, Debug)]
pub struct Sprite {
    pub spritesheet: TextureId,
    /// The top left corner of the first frame on the sheet, in pixels.
    pub offset: Vec2<u32>,
    pub frame_width: u32,
    pub frame_height: u32,
    pub num_frames_x: u32,
    pub num_frames_y: u32,
}

impl Sprite {
    /// The sprite has the frame `frame`.
    pub open spec fn has_frame(&self, frame: Vec2<u32>) -> bool {
        frame.x < self.num_frames_x && frame.y < self.num_frames_y
    }

    /// The part of the sheet that holds `frame`.
    pub open spec fn source_rect(&self, frame: Vec2<u32>) -> Rect {
        Rect {
            x: Fixed::from_int(self.offset.x as i64).add(
                Fixed::from_int(frame.x as i64).mul(Fixed::from_int(self.frame_width as i64)),
            ),
            y: Fixed::from_int(self.offset.y as i64).add(
                Fixed::from_int(frame.y as i64).mul(Fixed::from_int(self.frame_height as i64)),
            ),
            width: Fixed::from_int(self.frame_width as i64),
            height: Fixed::from_int(self.frame_height as i64),
        }
    }

    /// How `frame` is drawn at `pos`: at the nearest whole pixel, in the
    /// frame's own size.
    pub open spec fn draw_spec(&self, frame: Vec2<u32>, pos: Vec2<Fixed>, flip_x: bool) -> Blit {
        Blit {
            texture: self.spritesheet,
            x: pos.x.round(),
            y: pos.y.round(),
            dest_size: Some(
                Vec2 {
                    x: Fixed::from_int(self.frame_width as i64),
                    y: Fixed::from_int(self.frame_height as i64),
                },
            ),
            source: Some(self.source_rect(frame)),
            flip_x,
        }
    }

    /// Says how to draw one frame of the sprite at `pos`.
    #[verifier::when_used_as_spec(draw_spec)]
    pub fn draw(&self, frame: Vec2<u32>, pos: Vec2<Fixed>, flip_x: bool) -> (b: Blit)
        requires
            self.has_frame(frame),
        ensures
            b == self.draw_spec(frame, pos, flip_x),
    {
        let source_rect = Rect::new(
            Fixed::from_int(self.offset.x as i64).add(
                Fixed::from_int(frame.x as i64).mul(Fixed::from_int(self.frame_width as i64)),
            ),
            Fixed::from_int(self.offset.y as i64).add(
                Fixed::from_int(frame.y as i64).mul(Fixed::from_int(self.frame_height as i64)),
            ),
            Fixed::from_int(self.frame_width as i64),
            Fixed::from_int(self.frame_height as i64),
        );
        let dest_rect = Rect::new(
            pos.x.round(),
            pos.y.round(),
            Fixed::from_int(self.frame_width as i64),
            Fixed::from_int(self.frame_height as i64),
        );
        Blit {
            texture: self.spritesheet,
            x: dest_rect.x,
            y: dest_rect.y,
            dest_size: Some(dest_rect.size()),
            source: Some(source_rect),
            flip_x,
        }
    }
}

/// A row of frames shown one after the other.
#[derive(Clone, Copy, Debug)]
pub struct Animation {
    /// Tells animations apart: playing the one that already plays changes nothing.
    pub id: usize,
    pub sprite: Sprite,
    /// Seconds per frame; an animation with zero stands still.
    pub frame_time: Fixed,
    /// Whether the first frame follows the last.
    pub repeat: bool,
}

/// Plays an animation: keeps the frame to show and the time it has been shown.
#[derive(Clone, Copy, Debug)]
pub struct AnimationPlayer {
    /// Stretches the time per frame: 2 plays at half speed.
    pub speed_up: Fixed,
    pub animation: Animation,
    pub frame: Vec2<u32>,
    pub wait_time: Fixed,
    pub stopped: bool,
    pub flip_x: bool,
}

impl AnimationPlayer {
    /// A player at the start of `animation`.
    pub open spec fn new_spec(animation: Animation) -> AnimationPlayer {
        AnimationPlayer {
            animation,
            frame: Vec2 { x: 0, y: 0 },
            speed_up: Fixed::one(),
            wait_time: Fixed::zero(),
            stopped: false,
            flip_x: false,
        }
    }

    /// The frame to show is one of the animation's.
    pub open spec fn wf(&self) -> bool {
        self.animation.sprite.has_frame(self.frame)
    }

    /// The player back at the start of its animation, at normal speed.
    pub open spec fn reset_spec(self) -> AnimationPlayer {
        AnimationPlayer {
            frame: Vec2 { x: 0, y: 0 },
            wait_time: Fixed::zero(),
            speed_up: Fixed::one(),
            stopped: false,
            ..self
        }
    }

    /// The player after it was told to play `animation`: restarted with it,
    /// unless it plays that animation already.
    pub open spec fn play_spec(self, animation: Animation) -> AnimationPlayer {
        if self.animation.id != animation.id {
            AnimationPlayer { animation, ..self }.reset_spec()
        } else {
            self
        }
    }

    /// Seconds that one frame is shown.
    pub open spec fn period(self) -> Fixed {
        self.animation.frame_time.mul(self.speed_up)
    }

    /// The frame has been shown for longer than its time, and there is a
    /// next step: a repeating animation whose frames last no time stands still.
    pub open spec fn due(self) -> bool {
        self.wait_time.raw > self.period().raw && (self.period().raw > 0 || !self.animation.repeat)
    }

    /// What bounds the number of frames still to pass.
    pub open spec fn fuel(self) -> int {
        if self.animation.repeat {
            self.wait_time.raw as int
        } else {
            self.animation.sprite.num_frames_x - self.frame.x
        }
    }

    /// The player after all the frames have passed whose time is up. Each
    /// takes its time off the wait. After the last frame comes the first,
    /// or, if the animation does not repeat, the player stops on the last.
    pub open spec fn run(self) -> AnimationPlayer
        decreases self.fuel(),
    {
        if !self.due() {
            self
        } else {
            let waited = AnimationPlayer { wait_time: self.wait_time.sub(self.period()), ..self };
            if self.frame.x + 1 < self.animation.sprite.num_frames_x {
                AnimationPlayer {
                    frame: Vec2 { x: (self.frame.x + 1) as u32, y: self.frame.y },
                    ..waited
                }.run()
            } else if !self.animation.repeat {
                AnimationPlayer { stopped: true, ..waited }
            } else {
                AnimationPlayer { frame: Vec2 { x: 0, y: self.frame.y }, ..waited }.run()
            }
        }
    }

    /// The player after `secs` more seconds: one that is stopped, or whose
    /// animation has no frame time, is unchanged.
    pub open spec fn update_spec(self, secs: Fixed) -> AnimationPlayer {
        if !self.stopped && self.animation.frame_time.raw != 0 {
            AnimationPlayer { wait_time: self.wait_time.add(secs), ..self }.run()
        } else {
            self
        }
    }

    /// Creates a player at the start of `animation`.
    #[verifier::when_used_as_spec(new_spec)]
    pub fn new(animation: Animation) -> (p: AnimationPlayer)
        ensures
            p == AnimationPlayer::new_spec(animation),
    {
        AnimationPlayer {
            animation,
            frame: Vec2::new(0, 0),
            speed_up: Fixed::one(),
            wait_time: Fixed::zero(),
            stopped: false,
            flip_x: false,
        }
    }

    /// Plays `animation` from its start, unless it is playing already.
    pub fn play(&mut self, animation: Animation)
        ensures
            *final(self) == old(self).play_spec(animation),
    {
        if self.animation.id != animation.id {
            self.animation = animation;
            self.reset();
        }
    }

    /// Goes back to the start of the animation, at normal speed.
    pub fn reset(&mut self)
        ensures
            *final(self) == old(self).reset_spec(),
    {
        self.frame = Vec2::new(0, 0);
        self.wait_time = Fixed::zero();
        self.speed_up = Fixed::one();
        self.stopped = false;
    }

    /// Sets whether the animation is drawn mirrored.
    pub fn flip_horizontal(&mut self, flip: bool)
        ensures
            *final(self) == (AnimationPlayer { flip_x: flip, ..*old(self) }),
    {
        self.flip_x = flip;
    }

    /// Lets `secs` seconds pass.
    pub fn update(&mut self, secs: Fixed)
        ensures
            *final(self) == old(self).update_spec(secs),
    {
        if !self.stopped && self.animation.frame_time.raw != 0 {
            self.wait_time = self.wait_time.add(secs);
            let ghost start = *self;
            loop
                invariant_except_break
                    self.run() == start.run(),
                ensures
                    *self == start.run(),
                decreases self.fuel(),
            {
                let period = self.animation.frame_time.mul(self.speed_up);
                if !(self.wait_time.raw > period.raw && (period.raw > 0 || !self.animation.repeat)) {
                    break;
                }
                self.wait_time = self.wait_time.sub(period);
                if (self.frame.x as u64) + 1 < self.animation.sprite.num_frames_x as u64 {
                    self.frame.x = self.frame.x + 1;
                } else if !self.animation.repeat {
                    self.stopped = true;
                    break;
                } else {
                    self.frame.x = 0;
                }
            }
        }
    }

    /// Says how to draw the current frame at `pos`.
    pub fn draw(&self, pos: Vec2<Fixed>) -> (b: Blit)
        requires
            self.wf(),
        ensures
            b == self.animation.sprite.draw_spec(self.frame, pos, self.flip_x),
    {
        self.animation.sprite.draw(self.frame, pos, self.flip_x)
    }
}

} // verus!
