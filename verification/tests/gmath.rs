use platformer::fixed::Fixed;
use platformer::gmath::shapes::Rect;
use platformer::gmath::vectors::Vec2;

fn whole(v: i64) -> Fixed {
    Fixed::from_int(v)
}

fn vec(x: i64, y: i64) -> Vec2<Fixed> {
    Vec2::new(whole(x), whole(y))
}

#[test]
fn vector_constants() {
    let z = Vec2::<Fixed>::zero();
    assert_eq!((z.x.raw, z.y.raw), (0, 0));
    let x = Vec2::<Fixed>::unit_x();
    assert_eq!((x.x.raw, x.y.raw), (1_000_000, 0));
    let y = Vec2::<Fixed>::unit_y();
    assert_eq!((y.x.raw, y.y.raw), (0, 1_000_000));
}

#[test]
fn dot_and_length() {
    let v = vec(3, 4);
    assert_eq!(v.dot(&vec(2, -1)).raw, 2_000_000);
    assert_eq!(v.length_sqr().raw, 25_000_000);
    assert_eq!(v.length().raw, 5_000_000);
}

#[test]
fn sum_difference_and_scaling() {
    let s = vec(3, 4).add(&vec(-1, 10));
    assert_eq!((s.x.raw, s.y.raw), (2_000_000, 14_000_000));
    let d = vec(3, 4).sub(&vec(-1, 10));
    assert_eq!((d.x.raw, d.y.raw), (4_000_000, -6_000_000));
    let m = vec(3, 4).mul(Fixed::from_raw(500_000));
    assert_eq!((m.x.raw, m.y.raw), (1_500_000, 2_000_000));
}

#[test]
fn unit_vector_and_normalize() {
    let u = vec(3, 4).unit();
    assert_eq!((u.x.raw, u.y.raw), (600_000, 800_000));
    let mut v = vec(0, -2);
    v.normalize();
    assert_eq!((v.x.raw, v.y.raw), (0, -1_000_000));
}

#[test]
fn unit_of_the_zero_vector_is_zero() {
    let u = vec(0, 0).unit();
    assert_eq!((u.x.raw, u.y.raw), (0, 0));
}

#[test]
fn polar_and_rotation() {
    // an angle with sine 0.6 and cosine 0.8
    let sin_a = Fixed::from_raw(600_000);
    let cos_a = Fixed::from_raw(800_000);
    let p = Vec2::<Fixed>::from_polar(sin_a, cos_a, whole(5));
    assert_eq!((p.x.raw, p.y.raw), (4_000_000, 3_000_000));
    let mut v = vec(1, 0);
    v.rotate(cos_a, sin_a);
    assert_eq!((v.x.raw, v.y.raw), (800_000, 600_000));
    let mut w = vec(0, 1);
    w.rotate(cos_a, sin_a);
    assert_eq!((w.x.raw, w.y.raw), (-600_000, 800_000));
}

#[test]
fn generic_vector_holds_what_it_is_given() {
    let v = Vec2::new(7u32, 9u32);
    assert_eq!((v.x, v.y), (7, 9));
}

#[test]
fn rectangle_edges_and_corners() {
    let r = Rect::new(whole(10), whole(20), whole(30), whole(40));
    assert_eq!(r.left().raw, 10_000_000);
    assert_eq!(r.right().raw, 40_000_000);
    assert_eq!(r.top().raw, 20_000_000);
    assert_eq!(r.bottom().raw, 60_000_000);
    let tr = r.top_right();
    assert_eq!((tr.x.raw, tr.y.raw), (40_000_000, 20_000_000));
    let bl = r.bottom_left();
    assert_eq!((bl.x.raw, bl.y.raw), (10_000_000, 60_000_000));
    let br = r.bottom_right();
    assert_eq!((br.x.raw, br.y.raw), (40_000_000, 60_000_000));
    let c = r.center();
    assert_eq!((c.x.raw, c.y.raw), (25_000_000, 40_000_000));
    let p = r.point();
    assert_eq!((p.x.raw, p.y.raw), (10_000_000, 20_000_000));
    let s = r.size();
    assert_eq!((s.x.raw, s.y.raw), (30_000_000, 40_000_000));
}

#[test]
fn top_left_gives_top_then_left() {
    let r = Rect::new(whole(10), whole(20), whole(30), whole(40));
    let tl = r.top_left();
    assert_eq!((tl.x.raw, tl.y.raw), (20_000_000, 10_000_000));
}

#[test]
fn moving_a_rectangle_keeps_its_size() {
    let r = Rect::new(whole(10), whole(20), whole(30), whole(40)).move_vec(vec(-5, 7));
    assert_eq!((r.x.raw, r.y.raw), (5_000_000, 27_000_000));
    assert_eq!((r.width.raw, r.height.raw), (30_000_000, 40_000_000));
}

#[test]
fn intersection_area() {
    let a = Rect::new(whole(0), whole(0), whole(10), whole(10));
    let b = Rect::new(whole(5), whole(6), whole(10), whole(10));
    assert_eq!(a.intersect_area(&b).raw, 20_000_000);
    assert_eq!(b.intersect_area(&a).raw, 20_000_000);
    let apart = Rect::new(whole(20), whole(0), whole(10), whole(10));
    assert_eq!(a.intersect_area(&apart).raw, 0);
    let touching = Rect::new(whole(10), whole(0), whole(10), whole(10));
    assert_eq!(a.intersect_area(&touching).raw, 0);
}
