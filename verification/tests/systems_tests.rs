use breakout_clone::components::ball::Ball;
use breakout_clone::components::{Hitbox, Transform};
use breakout_clone::math::{Fx, Vec2};
use breakout_clone::resources::InputState;
use breakout_clone::systems::{
    BallSystem, FrameLimiterSystem, InputSystem, PaddleSystem, RenderingSystem,
};
use breakout_clone::types::{Action, GameEvent, InputEvent, Key, TextureInfo};
use breakout_clone::world::World;

fn key(k: Key, a: Action) -> GameEvent {
    GameEvent::Input(InputEvent::Key(k, a))
}

#[test]
fn input_system_mirrors_key_state() {
    let mut state = InputState::default();
    let events = vec![
        key(Key::Left, Action::Press),
        key(Key::D, Action::Press),
        key(Key::W, Action::Press),
        key(Key::Down, Action::Press),
        key(Key::Left, Action::Release),
        key(Key::Escape, Action::Press),
        key(Key::Other, Action::Release),
        GameEvent::CloseWindow,
    ];
    InputSystem::run(&mut state, &events);
    assert!(!state.left);
    assert!(state.right);
    assert!(state.up);
    assert!(state.down);

    let release = vec![
        key(Key::D, Action::Release),
        key(Key::Up, Action::Release),
        key(Key::S, Action::Release),
        key(Key::A, Action::Repeat),
    ];
    InputSystem::run(&mut state, &release);
    assert!(!state.left && !state.right && !state.up && !state.down);
}

#[test]
fn paddle_clamps_at_left_boundary() {
    let mut w = World::new();
    let e = w.spawn();
    w.insert_transform(
        e,
        Transform::default().with_pos(Vec2::new(Fx::from_int(0), Fx::from_int(1))),
    );
    w.tag_paddle(e);
    let input = InputState { left: true, right: false, up: false, down: false };
    PaddleSystem::run(&mut w, &input, Fx::from_milli(1_000));
    let t = w.get_transform(e).unwrap();
    assert_eq!(t.position, Vec2::new(Fx::from_int(0), Fx::from_int(1)));
}

#[test]
fn paddle_clamps_at_right_boundary() {
    let mut w = World::new();
    let e = w.spawn();
    w.insert_transform(
        e,
        Transform::default().with_pos(Vec2::new(Fx::from_int(30), Fx::from_int(1))),
    );
    w.tag_paddle(e);
    let input = InputState { left: false, right: true, up: false, down: false };
    PaddleSystem::run(&mut w, &input, Fx::from_milli(1_000));
    assert_eq!(w.get_transform(e).unwrap().position.x, Fx::from_int(40));
}

#[test]
fn paddle_ignores_conflicting_keys() {
    let mut w = World::new();
    let e = w.spawn();
    w.insert_transform(
        e,
        Transform::default().with_pos(Vec2::new(Fx::from_int(12), Fx::from_int(1))),
    );
    w.tag_paddle(e);
    let input = InputState { left: true, right: true, up: false, down: false };
    PaddleSystem::run(&mut w, &input, Fx::from_milli(1_000));
    assert_eq!(w.get_transform(e).unwrap().position.x, Fx::from_int(12));
}

#[test]
fn ball_integrates_velocity() {
    // A ball at (0.5, 20) with the standard fifteen-pixel global transform
    // moves by its velocity over one second and keeps it: no boundary is
    // crossed.
    let mut w = World::new();
    let tex = TextureInfo::new(0, 16, 16);
    let e = Ball::init(&mut w, tex);
    BallSystem::run(&mut w, Fx::from_milli(1_000));
    let t = w.get_transform(e).unwrap();
    assert_eq!(
        t.position,
        Vec2::new(Fx::from_milli(500 + 7_071), Fx::from_milli(20_000 - 7_071)),
    );
    let v = w.get_ball(e).unwrap().velocity;
    assert_eq!(v, Vec2::new(Fx::from_milli(7_071), Fx::from_milli(-7_071)));
}

#[test]
fn ball_lost_out_of_the_bottom_stops() {
    // Three seconds at the initial velocity carry the ball below the
    // bottom edge: it is lost, so its velocity zeroes instead of
    // reflecting.
    let mut w = World::new();
    let tex = TextureInfo::new(0, 16, 16);
    let e = Ball::init(&mut w, tex);
    BallSystem::run(&mut w, Fx::from_milli(3_000));
    let t = w.get_transform(e).unwrap();
    assert_eq!(
        t.position,
        Vec2::new(Fx::from_milli(500 + 21_213), Fx::from_milli(20_000 - 21_213)),
    );
    let v = w.get_ball(e).unwrap().velocity;
    assert_eq!(v, Vec2::new(Fx::from_milli(0), Fx::from_milli(0)));
}

#[test]
fn ball_deletes_exactly_the_hit_block() {
    let mut w = World::new();
    let ball_box = Hitbox::new(
        Vec2::new(Fx::from_milli(-7_500), Fx::from_milli(-7_500)),
        Vec2::new(Fx::from_milli(7_500), Fx::from_milli(7_500)),
    );
    let block_box = Hitbox::new(
        Vec2::new(Fx::from_milli(-15_000), Fx::from_milli(-7_500)),
        Vec2::new(Fx::from_milli(15_000), Fx::from_milli(7_500)),
    );

    let ball = w.spawn();
    w.insert_transform(
        ball,
        Transform::default().with_pos(Vec2::new(Fx::from_int(20), Fx::from_int(20))),
    );
    w.insert_hitbox(ball, ball_box);
    w.insert_ball(ball, Ball { velocity: Vec2::new(Fx::from_milli(1_000), Fx::zero()) });

    // Touches the ball edge-on in x.
    let hit_block = w.spawn();
    w.insert_transform(
        hit_block,
        Transform::default().with_pos(Vec2::new(Fx::from_milli(42_500), Fx::from_int(20))),
    );
    w.insert_hitbox(hit_block, block_box);
    w.tag_block(hit_block);
    w.tag_collidable(hit_block);

    // Far above the ball: untouched.
    let far_block = w.spawn();
    w.insert_transform(
        far_block,
        Transform::default().with_pos(Vec2::new(Fx::from_int(20), Fx::from_int(50))),
    );
    w.insert_hitbox(far_block, block_box);
    w.tag_block(far_block);
    w.tag_collidable(far_block);

    BallSystem::run(&mut w, Fx::zero());

    assert!(!w.is_alive(hit_block));
    assert!(w.is_alive(far_block));
    assert!(w.is_alive(ball));
    // The edge-on touch in x reflects the ball's horizontal velocity.
    let v = w.get_ball(ball).unwrap().velocity;
    assert_eq!(v, Vec2::new(Fx::from_milli(-1_000), Fx::zero()));
}

#[test]
fn frame_limiter_paces_and_reports() {
    let mut fl = FrameLimiterSystem::new(60);
    assert_eq!(fl.frame_duration_ns, 16_666_666);

    let (sleep, report) = fl.run(10_000_000);
    assert_eq!(sleep, 6_666_666);
    assert!(report.is_none());
    assert_eq!(fl.frame_count, 1);
    assert_eq!(fl.last_called_ns, 16_666_666);

    // A slow frame leaves nothing to sleep.
    let (sleep2, _) = fl.run(fl.last_called_ns + 100_000_000);
    assert_eq!(sleep2, 0);
}

#[test]
fn frame_limiter_reports_measured_rate() {
    let mut fl = FrameLimiterSystem::new(60);
    let mut last_report = None;
    for _ in 0..300 {
        let now = fl.last_called_ns;
        let (_, report) = fl.run(now);
        last_report = report;
    }
    let rep = last_report.expect("a report every three hundred frames");
    assert_eq!(rep.frame_count, 300);
    // Three hundred frames over five seconds of budget: sixty frames per
    // second, in milliframes.
    assert_eq!(rep.milli_fps, 60_000);
}

#[test]
fn render_commands_cover_sprites() {
    let mut w = World::new();
    let tex = TextureInfo::new(3, 100, 50);
    let e = w.spawn();
    let mut sprite = breakout_clone::components::Sprite::new(&tex, (0, 0), (100, 50));
    sprite.offsets = Vec2::new(Fx::from_milli(500), Fx::from_milli(500));
    w.insert_sprite(e, sprite);
    w.insert_transform(
        e,
        Transform::default().with_pos(Vec2::new(Fx::from_int(10), Fx::from_int(10))),
    );
    // A second entity without a sprite renders nothing.
    let bare = w.spawn();
    w.insert_transform(bare, Transform::default());

    let commands = RenderingSystem::run(&w);
    assert_eq!(commands.len(), 1);
    assert_eq!(commands[0].texture, 3);
    assert_eq!(commands[0].view.tx, Fx::from_int(10));
    assert_eq!(commands[0].view.ty, Fx::from_int(10));
    assert_eq!(commands[0].model.sx, Fx::from_int(100));
    assert_eq!(commands[0].model.sy, Fx::from_int(-50));
    assert_eq!(commands[0].model.tx, Fx::from_int(-50));
    assert_eq!(commands[0].model.ty, Fx::from_int(25));
}

#[test]
fn ball_bounces_off_side_and_top_walls() {
    let mut w = World::new();
    let ball_box = Hitbox::new(
        Vec2::new(Fx::from_milli(-7_500), Fx::from_milli(-7_500)),
        Vec2::new(Fx::from_milli(7_500), Fx::from_milli(7_500)),
    );

    // Poking over the right edge of the world: the horizontal velocity
    // reflects, the vertical one is kept.
    let right = w.spawn();
    w.insert_transform(
        right,
        Transform::default().with_pos(Vec2::new(Fx::from_milli(39_500), Fx::from_int(20))),
    );
    w.insert_hitbox(right, ball_box);
    w.insert_ball(right, Ball { velocity: Vec2::new(Fx::from_milli(1_000), Fx::from_milli(500)) });

    // Poking over the top edge: the vertical velocity reflects.
    let top = w.spawn();
    w.insert_transform(
        top,
        Transform::default().with_pos(Vec2::new(Fx::from_int(20), Fx::from_milli(39_500))),
    );
    w.insert_hitbox(top, ball_box);
    w.insert_ball(top, Ball { velocity: Vec2::new(Fx::from_milli(500), Fx::from_milli(1_000)) });

    BallSystem::run(&mut w, Fx::zero());

    let vr = w.get_ball(right).unwrap().velocity;
    assert_eq!(vr, Vec2::new(Fx::from_milli(-1_000), Fx::from_milli(500)));
    let vt = w.get_ball(top).unwrap().velocity;
    assert_eq!(vt, Vec2::new(Fx::from_milli(500), Fx::from_milli(-1_000)));
}

#[test]
fn ball_bounces_off_paddle_without_deleting_it() {
    let mut w = World::new();
    let ball_box = Hitbox::new(
        Vec2::new(Fx::from_milli(-7_500), Fx::from_milli(-7_500)),
        Vec2::new(Fx::from_milli(7_500), Fx::from_milli(7_500)),
    );
    let paddle_box = Hitbox::new(
        Vec2::new(Fx::from_milli(-25_000), Fx::from_milli(-7_500)),
        Vec2::new(Fx::from_milli(25_000), Fx::from_milli(7_500)),
    );

    let ball = w.spawn();
    w.insert_transform(
        ball,
        Transform::default().with_pos(Vec2::new(Fx::from_int(20), Fx::from_int(16))),
    );
    w.insert_hitbox(ball, ball_box);
    w.insert_ball(ball, Ball { velocity: Vec2::new(Fx::zero(), Fx::from_milli(-2_000)) });

    // The paddle sits edge-on below the ball: contact classifies as a
    // vertical touch, reflecting the fall without deleting anything.
    let paddle = w.spawn();
    w.insert_transform(
        paddle,
        Transform::default().with_pos(Vec2::new(Fx::from_int(20), Fx::from_int(1))),
    );
    w.insert_hitbox(paddle, paddle_box);
    w.tag_paddle(paddle);
    w.tag_collidable(paddle);

    BallSystem::run(&mut w, Fx::zero());

    assert!(w.is_alive(paddle));
    assert!(w.is_alive(ball));
    let v = w.get_ball(ball).unwrap().velocity;
    assert_eq!(v, Vec2::new(Fx::zero(), Fx::from_milli(2_000)));
}
