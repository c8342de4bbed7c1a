use breakout_clone::components::Transform;
use breakout_clone::math::{Fx, Vec2};

fn fxi(units: i32) -> Fx {
    Fx::from_int(units)
}

#[test]
fn transform_default() {
    let t = Transform::default();
    assert_eq!(t.position, Vec2::new(fxi(0), fxi(0)));
}

#[test]
fn transform_pos() {
    let t = Transform::default().with_pos(Vec2::new(fxi(10), fxi(10)));
    assert_eq!(t.position, Vec2::new(fxi(10), fxi(10)));
}

#[test]
fn transform_pos_matrix() {
    let t = Transform::default().with_pos(Vec2::new(fxi(10), fxi(10)));
    let m = t.matrix();
    let result = m.apply(Vec2::zero());
    assert_eq!(result, Vec2::new(fxi(10), fxi(10)));
}

#[test]
fn transform_scale() {
    let t = Transform::default()
        .with_pos(Vec2::new(fxi(5), fxi(5)))
        .with_scale(Vec2::new(fxi(2), fxi(5)));
    assert_eq!(t.scale, Vec2::new(fxi(2), fxi(5)));
}

#[test]
fn transform_scale_matrix() {
    let t = Transform::default()
        .with_pos(Vec2::new(fxi(5), fxi(5)))
        .with_scale(Vec2::new(fxi(2), fxi(5)));
    let m = t.matrix();
    let result = m.apply(Vec2::zero());
    assert_eq!(result, Vec2::new(fxi(5), fxi(5)));
}

#[test]
fn transform_global_matrix() {
    let pixels_per_unit = 15;

    let g = Transform::default()
        .with_scale(Vec2::new(fxi(pixels_per_unit), fxi(pixels_per_unit)))
        .with_pos(Vec2::new(fxi(100), fxi(0)));

    let mut t1 = Transform::default().with_pos(Vec2::new(fxi(0), fxi(0)));
    t1.global = g.matrix();
    let t2 = t1.clone().with_pos(Vec2::new(fxi(40), fxi(0)));
    let t3 = t1.clone().with_pos(Vec2::new(fxi(0), fxi(40)));
    let t4 = t1.clone().with_pos(Vec2::new(fxi(40), fxi(40)));

    assert_eq!(t1.as_screen_point(), Vec2::new(fxi(100), fxi(0)));
    assert_eq!(t2.as_screen_point(), Vec2::new(fxi(700), fxi(0)));
    assert_eq!(t3.as_screen_point(), Vec2::new(fxi(100), fxi(600)));
    assert_eq!(t4.as_screen_point(), Vec2::new(fxi(700), fxi(600)));
}

#[test]
fn transform_world_point_round_trip() {
    let p = Vec2::new(Fx::from_milli(12_345), Fx::from_milli(-6_789));
    assert_eq!(Transform::default().with_pos(p).as_world_point(), p);

    let q = Vec2::new(Fx::from_milli(0), Fx::from_milli(1));
    let scaled = Transform::default()
        .with_scale(Vec2::new(fxi(15), fxi(3)))
        .with_pos(q);
    assert_eq!(scaled.as_world_point(), q);
}

#[test]
fn transform_moves() {
    let mut t = Transform::default().with_pos(Vec2::new(fxi(10), fxi(2)));
    t.move_left(fxi(3));
    assert_eq!(t.position.x, fxi(7));
    t.move_right(fxi(5));
    assert_eq!(t.position.x, fxi(12));
    t.set_x(fxi(1));
    t.set_y(fxi(4));
    assert_eq!(t.position, Vec2::new(fxi(1), fxi(4)));
}
