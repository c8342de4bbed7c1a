use breakout_clone::asset_manager::AssetManager;
use breakout_clone::components::ball::Ball;
use breakout_clone::components::{GlobalTransform, Hitbox, Transform};
use breakout_clone::math::{Fx, Vec2};
use breakout_clone::types::TextureInfo;
use breakout_clone::world::World;

#[test]
fn world_spawn_and_lookup() {
    let mut w = World::new();
    assert_eq!(w.len(), 0);
    let e = w.spawn();
    assert_eq!(w.len(), 1);
    assert!(w.is_alive(e));
    assert!(w.get_transform(e).is_none());

    let t = Transform::default().with_pos(Vec2::new(Fx::from_int(3), Fx::from_int(4)));
    assert!(w.insert_transform(e, t));
    let got = w.get_transform(e).unwrap();
    assert_eq!(got.position, Vec2::new(Fx::from_int(3), Fx::from_int(4)));

    let b = Ball { velocity: Vec2::new(Fx::from_int(1), Fx::from_int(-1)) };
    assert!(w.insert_ball(e, b));
    assert_eq!(w.get_ball(e).unwrap().velocity.x, Fx::from_int(1));
}

#[test]
fn world_delete_invalidates_handle() {
    let mut w = World::new();
    let e = w.spawn();
    assert!(w.insert_hitbox(
        e,
        Hitbox::new(Vec2::zero(), Vec2::new(Fx::from_int(1), Fx::from_int(1))),
    ));
    assert!(w.delete(e));
    assert!(!w.is_alive(e));
    assert!(!w.delete(e));
    assert!(!w.insert_transform(e, Transform::default()));
    assert!(w.get_transform(e).is_none());
}

#[test]
fn world_slot_reuse_keeps_stale_handles_dead() {
    let mut w = World::new();
    let e0 = w.spawn();
    assert!(w.delete(e0));
    let e1 = w.spawn();
    // The slot is reused under a fresh generation: the old handle stays
    // dead even though a live entity occupies its index again.
    assert_eq!(e1.index, e0.index);
    assert!(e1.generation > e0.generation);
    assert!(w.is_alive(e1));
    assert!(!w.is_alive(e0));
    assert_eq!(w.len(), 1);
}

#[test]
fn world_tags() {
    let mut w = World::new();
    let e = w.spawn();
    assert!(w.tag_paddle(e));
    assert!(w.tag_block(e));
    assert!(w.tag_collidable(e));
    let s = w.slot_at(e.index);
    assert!(s.paddle && s.block && s.collidable);
}

#[test]
fn asset_manager_assigns_sequential_handles() {
    let mut am = AssetManager::new();
    let a = am.register_texture(2, 3, vec![0u8; 18]);
    let b = am.register_texture(4, 4, vec![7u8; 48]);
    assert_eq!(a.id, 0);
    assert_eq!(b.id, 1);
    assert_eq!((a.width, a.height), (2, 3));
    let rec = am.get(1).unwrap();
    assert_eq!((rec.width, rec.height), (4, 4));
    assert_eq!(rec.texels.len(), 48);
    assert!(am.get(2).is_none());
}

#[test]
fn breakout_init_lays_out_the_board() {
    let mut w = World::new();
    let tex = TextureInfo::new(0, 64, 64);
    let r = breakout_clone::breakout::init(&mut w, tex, tex, tex);
    assert!(r.is_ok());
    assert_eq!(w.len(), 82);

    // Slot zero: the paddle at the middle of the world, one unit up.
    let paddle = w.slot_at(0);
    assert!(paddle.paddle && paddle.collidable && !paddle.block);
    let pt = paddle.transform.unwrap();
    assert_eq!(pt.position, Vec2::new(Fx::from_int(20), Fx::from_int(1)));
    let ps = paddle.sprite.unwrap();
    assert_eq!(ps.dimensions(), (50, 15));
    assert_eq!(ps.offsets, Vec2::new(Fx::from_milli(500), Fx::from_milli(500)));

    // Slot one: the ball halfway up the left edge, moving down-right.
    let ball = w.slot_at(1);
    assert!(!ball.collidable);
    let bt = ball.transform.unwrap();
    assert_eq!(bt.position, Vec2::new(Fx::from_milli(500), Fx::from_int(20)));
    let bv = ball.ball.unwrap().velocity;
    assert_eq!(bv, Vec2::new(Fx::from_milli(7_071), Fx::from_milli(-7_071)));
    let bs = ball.sprite.unwrap();
    assert_eq!(bs.dimensions(), (15, 15));
    assert_eq!(bs.offsets, Vec2::new(Fx::from_milli(500), Fx::from_milli(500)));

    // Slots two onward: the eighty blocks, column-major from the left.
    let first = w.slot_at(2);
    assert!(first.block && first.collidable);
    let ft = first.transform.unwrap();
    assert_eq!(
        ft.position,
        Vec2::new(Fx::from_milli(500), Fx::from_milli(35_500)),
    );
    let fs = first.sprite.unwrap();
    assert_eq!(fs.dimensions(), (30, 15));
    assert_eq!(fs.offsets, Vec2::new(Fx::from_milli(500), Fx::from_milli(500)));
    let last = w.slot_at(81);
    let lt = last.transform.unwrap();
    assert_eq!(
        lt.position,
        Vec2::new(Fx::from_milli(38_500), Fx::from_milli(38_500)),
    );
}

#[test]
fn resize_propagates_the_global_transform() {
    let mut w = World::new();
    let tex = TextureInfo::new(0, 64, 64);
    let r = breakout_clone::breakout::init(&mut w, tex, tex, tex);
    assert!(r.is_ok());

    // The startup global for the 800x600 window: fifteen pixels per unit,
    // centered by a hundred pixels.
    let g0 = GlobalTransform::for_window(800, 600);
    assert_eq!(g0.0.scale.x, Fx::from_int(15));
    assert_eq!(g0.0.position.x, Fx::from_int(100));

    // Doubling the surface doubles the scale and the centering offset.
    let g = GlobalTransform::for_window(1600, 1200);
    assert_eq!(g.0.scale.x, Fx::from_int(30));
    assert_eq!(g.0.position.x, Fx::from_int(200));

    w.set_global_transform(g.0.matrix());
    for i in 0..w.len() {
        let s = w.slot_at(i);
        let t = s.transform.unwrap();
        assert_eq!(t.global.sx, Fx::from_int(30));
        assert_eq!(t.global.tx, Fx::from_int(200));
    }
}
