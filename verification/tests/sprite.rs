use platformer::fixed::Fixed;
use platformer::gmath::vectors::Vec2;
use platformer::sprite::{Animation, AnimationPlayer, Sprite, TextureId};

fn fx(raw: i64) -> Fixed {
    Fixed::from_raw(raw)
}

fn animation(id: usize, frames: u32, frame_time: i64, repeat: bool) -> Animation {
    Animation {
        id,
        sprite: Sprite {
            spritesheet: TextureId(3),
            offset: Vec2::new(64, 128),
            frame_width: 40,
            frame_height: 32,
            num_frames_x: frames,
            num_frames_y: 1,
        },
        frame_time: fx(frame_time),
        repeat,
    }
}

#[test]
fn a_frame_is_cut_from_the_sheet() {
    let sprite = animation(0, 6, 0, true).sprite;
    let blit = sprite.draw(Vec2::new(2, 0), Vec2::new(fx(10_500_000), fx(-3_400_000)), true);
    assert_eq!(blit.texture, TextureId(3));
    assert_eq!((blit.x.raw, blit.y.raw), (11_000_000, -3_000_000));
    let source = blit.source.unwrap();
    assert_eq!((source.x.raw, source.y.raw), (144_000_000, 128_000_000));
    assert_eq!((source.width.raw, source.height.raw), (40_000_000, 32_000_000));
    let size = blit.dest_size.unwrap();
    assert_eq!((size.x.raw, size.y.raw), (40_000_000, 32_000_000));
    assert!(blit.flip_x);
}

#[test]
fn a_new_player_stands_at_the_first_frame() {
    let p = AnimationPlayer::new(animation(1, 3, 100_000, true));
    assert_eq!((p.frame.x, p.frame.y), (0, 0));
    assert_eq!(p.speed_up.raw, 1_000_000);
    assert_eq!(p.wait_time.raw, 0);
    assert!(!p.stopped);
    assert!(!p.flip_x);
    assert_eq!(p.animation.id, 1);
}

#[test]
fn frames_pass_as_time_passes() {
    let mut p = AnimationPlayer::new(animation(1, 3, 100_000, true));
    p.update(fx(250_000));
    assert_eq!(p.frame.x, 2);
    assert_eq!(p.wait_time.raw, 50_000);
    // after the last frame comes the first
    p.update(fx(100_000));
    assert_eq!(p.frame.x, 0);
    assert_eq!(p.wait_time.raw, 50_000);
    assert!(!p.stopped);
}

#[test]
fn a_frame_is_kept_for_exactly_its_time() {
    let mut p = AnimationPlayer::new(animation(1, 3, 100_000, true));
    p.update(fx(100_000));
    assert_eq!(p.frame.x, 0);
    assert_eq!(p.wait_time.raw, 100_000);
    p.update(fx(1));
    assert_eq!(p.frame.x, 1);
    assert_eq!(p.wait_time.raw, 1);
}

#[test]
fn speed_up_stretches_the_time_of_a_frame() {
    let mut p = AnimationPlayer::new(animation(1, 3, 100_000, true));
    p.speed_up = fx(2_000_000);
    p.update(fx(250_000));
    assert_eq!(p.frame.x, 1);
    assert_eq!(p.wait_time.raw, 50_000);
}

#[test]
fn an_animation_that_does_not_repeat_stops_on_its_last_frame() {
    let mut p = AnimationPlayer::new(animation(1, 2, 100_000, false));
    p.update(fx(500_000));
    assert_eq!(p.frame.x, 1);
    assert_eq!(p.wait_time.raw, 300_000);
    assert!(p.stopped);
    p.update(fx(500_000));
    assert_eq!(p.frame.x, 1);
    assert_eq!(p.wait_time.raw, 300_000);
}

#[test]
fn an_animation_without_frame_time_stands_still() {
    let mut p = AnimationPlayer::new(animation(1, 3, 0, true));
    p.update(fx(5_000_000));
    assert_eq!(p.frame.x, 0);
    assert_eq!(p.wait_time.raw, 0);
}

#[test]
fn a_repeating_animation_whose_frames_last_no_time_stands_still() {
    let mut p = AnimationPlayer::new(animation(1, 3, 100_000, true));
    p.speed_up = fx(0);
    p.update(fx(1_000_000));
    assert_eq!(p.frame.x, 0);
    assert_eq!(p.wait_time.raw, 1_000_000);
    assert!(!p.stopped);
}

#[test]
fn playing_another_animation_starts_it() {
    let mut p = AnimationPlayer::new(animation(1, 3, 100_000, true));
    p.speed_up = fx(2_000_000);
    p.update(fx(250_000));
    p.flip_horizontal(true);
    // the same animation goes on
    p.play(animation(1, 3, 100_000, true));
    assert_eq!(p.frame.x, 1);
    assert_eq!(p.speed_up.raw, 2_000_000);
    // another one starts at its first frame, and keeps the direction
    p.play(animation(2, 6, 700_000, true));
    assert_eq!(p.animation.id, 2);
    assert_eq!(p.frame.x, 0);
    assert_eq!(p.wait_time.raw, 0);
    assert_eq!(p.speed_up.raw, 1_000_000);
    assert!(p.flip_x);
}

#[test]
fn reset_goes_back_to_the_start() {
    let mut p = AnimationPlayer::new(animation(1, 2, 100_000, false));
    p.update(fx(500_000));
    p.reset();
    assert_eq!(p.frame.x, 0);
    assert_eq!(p.wait_time.raw, 0);
    assert!(!p.stopped);
    assert_eq!(p.animation.id, 1);
}

#[test]
fn the_player_draws_its_current_frame() {
    let mut p = AnimationPlayer::new(animation(1, 3, 100_000, true));
    p.update(fx(150_000));
    let blit = p.draw(Vec2::new(fx(0), fx(0)));
    assert_eq!(blit.source.unwrap().x.raw, 104_000_000);
    assert!(!blit.flip_x);
}
