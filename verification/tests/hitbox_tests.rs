use breakout_clone::components::{Hitbox, Transform};
use breakout_clone::math::{Fx, Vec2};
use breakout_clone::types::OverlapType;

fn sprite_box() -> Hitbox {
    // The box a hundred-by-fifty sprite centered on its entity spans.
    Hitbox::new(
        Vec2::new(Fx::from_int(-50), Fx::from_int(-25)),
        Vec2::new(Fx::from_int(50), Fx::from_int(25)),
    )
}

fn at(x: i32, y: i32) -> Vec2 {
    let t = Transform::default().with_pos(Vec2::new(Fx::from_int(x), Fx::from_int(y)));
    t.as_screen_point()
}

#[test]
fn test_sprite_hitbox_intersect_corner() {
    let b = sprite_box();
    assert_eq!(b.intersects(&b, at(0, 0), at(100, 50)), OverlapType::Both);
}

#[test]
fn test_sprite_hitbox_intersect_x() {
    let b = sprite_box();
    assert_eq!(b.intersects(&b, at(0, 0), at(100, 0)), OverlapType::OnlyX);
}

#[test]
fn test_sprite_hitbox_intersect_y() {
    let b = sprite_box();
    assert_eq!(b.intersects(&b, at(0, 0), at(0, 50)), OverlapType::OnlyY);
}

#[test]
fn test_sprite_hitbox_no_intersect() {
    let b = sprite_box();
    assert_eq!(b.intersects(&b, at(0, 0), at(200, 100)), OverlapType::Neither);
}

#[test]
fn hitbox_symmetry() {
    let a = Hitbox::new(
        Vec2::new(Fx::from_milli(-10_000), Fx::from_milli(-5_000)),
        Vec2::new(Fx::from_milli(10_000), Fx::from_milli(5_000)),
    );
    let b = Hitbox::new(
        Vec2::new(Fx::from_milli(-20_000), Fx::from_milli(-1_000)),
        Vec2::new(Fx::from_milli(3_000), Fx::from_milli(9_000)),
    );
    let ca = Vec2::new(Fx::from_milli(0), Fx::from_milli(0));
    let cb = Vec2::new(Fx::from_milli(5_000), Fx::from_milli(2_000));
    assert_eq!(a.intersects(&b, ca, cb), b.intersects(&a, cb, ca));

    let far = Vec2::new(Fx::from_milli(60_000), Fx::from_milli(0));
    assert_eq!(a.intersects(&b, ca, far), b.intersects(&a, far, ca));
}

#[test]
fn hitbox_separated_is_neither() {
    // A's right edge left of B's left edge: no overlap wherever B sits in y.
    let b = sprite_box();
    assert_eq!(b.intersects(&b, at(0, 0), at(101, 7)), OverlapType::Neither);
    assert_eq!(b.intersects(&b, at(0, 0), at(101, -32)), OverlapType::Neither);
}

#[test]
fn hitbox_deep_overlap_is_neither() {
    // Overlap deeper than the tolerance on both axes picks no bounce axis.
    let b = sprite_box();
    assert_eq!(b.intersects(&b, at(0, 0), at(7, 7)), OverlapType::Neither);
}

#[test]
fn hitbox_tolerance_edge() {
    // A penetration depth just under one unit still counts as edge-on.
    let b = sprite_box();
    let shifted = Vec2::new(Fx::from_milli(99_001), Fx::from_milli(0));
    assert_eq!(b.intersects(&b, at(0, 0), shifted), OverlapType::OnlyX);
    let too_deep = Vec2::new(Fx::from_milli(99_000), Fx::from_milli(0));
    assert_eq!(b.intersects(&b, at(0, 0), too_deep), OverlapType::Neither);
}

#[test]
fn hitbox_corners() {
    let b = sprite_box();
    let (lo, hi) = b.corners(at(10, 20));
    assert_eq!(lo, Vec2::new(Fx::from_int(-40), Fx::from_int(-5)));
    assert_eq!(hi, Vec2::new(Fx::from_int(60), Fx::from_int(45)));
}
