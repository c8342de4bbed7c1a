use breakout_clone::components::Sprite;
use breakout_clone::game_error::GameError;
use breakout_clone::math::{Fx, Mat, Vec2};
use breakout_clone::types::{ScreenContext, TextureInfo, VertexSemantics, WindowState};

#[test]
fn fx_arithmetic() {
    let a = Fx::from_milli(1_500);
    let b = Fx::from_int(2);
    assert_eq!(a.add(b), Fx::from_milli(3_500));
    assert_eq!(a.sub(b), Fx::from_milli(-500));
    assert_eq!(a.mul(b), Fx::from_milli(3_000));
    assert_eq!(b.neg(), Fx::from_int(-2));
    assert_eq!(a.min(b), a);
    assert_eq!(a.max(b), b);
    assert_eq!(Fx::from_milli(-250).abs(), Fx::from_milli(250));
}

#[test]
fn fx_mul_rounds_toward_negative_infinity() {
    // 1.5 * -1.5 = -2.25, held in thousandths as -2250.
    assert_eq!(
        Fx::from_milli(1_500).mul(Fx::from_milli(-1_500)),
        Fx::from_milli(-2_250),
    );
    // -0.0015 * 1 scales to -1.5 thousandths and floors to -2.
    assert_eq!(Fx::from_milli(-3).half(), Fx::from_milli(-2));
    assert_eq!(Fx::from_milli(3).half(), Fx::from_milli(1));
}

#[test]
fn mat_identity_applies_nothing() {
    let p = Vec2::new(Fx::from_milli(123), Fx::from_milli(-456));
    assert_eq!(Mat::identity().apply(p), p);
}

#[test]
fn sprite_quad_and_texels() {
    let tex = TextureInfo::new(0, 100, 50);
    let s = Sprite::new(&tex, (0, 0), (100, 50));
    assert_eq!(s.dimensions(), (100, 50));
    let vs = s.get_vertices();
    assert_eq!(vs[0].position, Vec2::new(Fx::from_int(0), Fx::from_int(0)));
    assert_eq!(vs[2].position, Vec2::new(Fx::from_int(1), Fx::from_int(1)));
    // The whole atlas: texel coordinates run from zero to one.
    assert_eq!(vs[0].tex_coords, Vec2::new(Fx::from_int(0), Fx::from_int(0)));
    assert_eq!(vs[2].tex_coords, Vec2::new(Fx::from_int(1), Fx::from_int(1)));

    // A quarter of the atlas.
    let part = Sprite::new(&tex, (25, 0), (75, 25));
    assert_eq!(part.dimensions(), (50, 25));
    let pv = part.get_vertices();
    assert_eq!(
        pv[0].tex_coords,
        Vec2::new(Fx::from_milli(250), Fx::from_milli(0)),
    );
    assert_eq!(
        pv[2].tex_coords,
        Vec2::new(Fx::from_milli(750), Fx::from_milli(500)),
    );
}

#[test]
fn test_sprite_offsets() {
    let tex = TextureInfo::new(0, 100, 50);
    let mut s = Sprite::new(&tex, (0, 0), (100, 50));
    s.offsets = Vec2::new(Fx::from_milli(500), Fx::from_milli(500));

    let m = s.get_model_matrix();
    // top left corner of sprite
    let tl = m.apply(Vec2::zero());
    // bottom right
    let br = m.apply(Vec2::new(Fx::from_int(1), Fx::from_int(1)));

    assert_eq!(tl.x, Fx::from_int(-50));
    assert_eq!(tl.y, Fx::from_int(25));
    assert_eq!(br.x, Fx::from_int(50));
    assert_eq!(br.y, Fx::from_int(-25));
}

#[test]
fn game_error_carries_its_message() {
    let e = GameError::new(String::from("texture file missing"));
    assert_eq!(e.message(), "texture file missing");
}

#[test]
fn screen_context_holds_projection_and_size() {
    let mut ctx = ScreenContext::new(Mat::identity(), 800, 600);
    assert_eq!(ctx.dimensions(), (800, 600));
    assert_eq!(ctx.transform(), Mat::identity());
    ctx.set_dimensions((1024, 768));
    let mut proj = Mat::identity();
    proj.tx = Fx::from_int(100);
    ctx.set_transform(proj);
    assert_eq!(ctx.dimensions(), (1024, 768));
    assert_eq!(ctx.transform().tx, Fx::from_int(100));
}

#[test]
fn window_state_defaults() {
    let w = WindowState::default();
    assert_eq!((w.width, w.height), (800, 600));
    let w2 = WindowState::new(320, 240);
    assert_eq!((w2.width, w2.height), (320, 240));
    let _sem = (VertexSemantics::Position, VertexSemantics::TextureCoords);
}
