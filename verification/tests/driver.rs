use frameloop::app::{App, Rgba};
use frameloop::camera::{Inertial, Direction, IMPULSE_GAIN};
use frameloop::cycle::Cycle;
use frameloop::ev::Event;
use frameloop::geometry::{Position, FP_ONE};
use frameloop::input::{Event as InputEvent, Key};
use frameloop::systems::{Ai, Physics, System};
use frameloop::timing::{fps_of, MovingAverage};
use frameloop::world::World;

struct NopPhysics {
    registered: Vec<u64>,
}

impl System for NopPhysics {
    fn init(&mut self, _world: &mut World) {}
    fn update_world(&mut self, _dt: u64, _world: &mut World) {}
}

impl Physics for NopPhysics {
    fn register(&mut self, id: u64) {
        self.registered.push(id);
    }
}

struct NopSystem;

impl System for NopSystem {
    fn init(&mut self, _world: &mut World) {}
    fn update_world(&mut self, _dt: u64, _world: &mut World) {}
}

struct NopAi;

impl System for NopAi {
    fn init(&mut self, _world: &mut World) {}
    fn update_world(&mut self, _dt: u64, _world: &mut World) {}
}

impl Ai for NopAi {
    fn follow_me(&mut self, _target: Position) {}
}

type TestApp = App<NopPhysics, NopSystem, NopSystem, NopAi>;

fn new_app(now: u64) -> TestApp {
    App::new(100, 100, 50, now, NopPhysics { registered: Vec::new() }, NopSystem, NopSystem, NopAi)
}

#[test]
fn cycle_next_prev_round_trip() {
    let mut c = Cycle::new(vec![10u32, 20, 30]);
    for _ in 0..3 {
        let before = c.get();
        c.next();
        c.prev();
        assert_eq!(c.get(), before);
        let before = c.get();
        c.prev();
        c.next();
        assert_eq!(c.get(), before);
        c.next();
    }
}

#[test]
fn cycle_wraps_both_ways() {
    let mut c = Cycle::new(vec![1u32, 2]);
    assert_eq!(c.get(), 1);
    c.prev();
    assert_eq!(c.get(), 2);
    c.next();
    assert_eq!(c.get(), 1);
    c.next();
    assert_eq!(c.get(), 2);
    c.next();
    assert_eq!(c.get(), 1);
}

#[test]
fn camera_pushes_cancel() {
    let mut cam = Inertial::new();
    cam.push(Direction::Up);
    cam.push(Direction::Down);
    cam.update(100);
    let p = cam.position();
    assert_eq!((p.x, p.y), (0, 0));
}

#[test]
fn camera_displacement_follows_net_impulse() {
    let mut cam = Inertial::new();
    cam.push(Direction::Up);
    cam.push(Direction::Up);
    cam.push(Direction::Up);
    cam.push(Direction::Down);
    cam.push(Direction::Right);
    cam.update(100);
    let p = cam.position();
    assert_eq!(p.y, 2 * IMPULSE_GAIN * 100);
    assert_eq!(p.x, IMPULSE_GAIN * 100);

    let mut faster = Inertial::new();
    for _ in 0..4 {
        faster.push(Direction::Up);
    }
    faster.update(100);
    assert!(faster.position().y > p.y);
}

#[test]
fn camera_reset_returns_to_rest() {
    let mut cam = Inertial::new();
    cam.push(Direction::Left);
    cam.update(50);
    assert!(cam.position().x < 0);
    cam.reset();
    assert_eq!((cam.position().x, cam.position().y), (0, 0));
    cam.update(50);
    assert_eq!((cam.position().x, cam.position().y), (0, 0));
}

#[test]
fn moving_average_is_exact() {
    let mut avg = MovingAverage::new();
    assert_eq!(avg.smooth(100), 100);
    assert_eq!(avg.smooth(200), 150);
    assert_eq!(avg.smooth(300), 200);
}

#[test]
fn moving_average_evicts_oldest() {
    let mut avg = MovingAverage::new();
    // Fill the 120-sample window with zeros, then watch a large sample
    // displace them one by one.
    for _ in 0..120 {
        avg.smooth(0);
    }
    assert_eq!(avg.smooth(1200), 10);
    assert_eq!(avg.smooth(1200), 20);
    assert_eq!(avg.len(), 120);
}

#[test]
fn fps_formula() {
    assert_eq!(fps_of(0), u64::MAX);
    assert_eq!(fps_of(1_000_000_000), 1);
    assert_eq!(fps_of(16_666_667), 59);
    assert_eq!(fps_of(1_000_000), 1000);
}

#[test]
fn update_reports_exact_timing() {
    let mut app = new_app(0);
    app.init_systems();
    let u = app.update(1_000_000).unwrap();
    assert_eq!(u.frame_count, 1);
    assert_eq!(u.frame_time, 1_000_000);
    assert_eq!(u.frame_time_smooth, 1_000_000);
    assert_eq!(u.fps, 1000);
    assert_eq!(u.frame_elapsed, 1_000_000);
    assert_eq!(u.wall_clock_elapsed, 1_000_000);

    let u = app.update(3_000_000).unwrap();
    assert_eq!(u.frame_count, 2);
    assert_eq!(u.frame_time, 2_000_000);
    assert_eq!(u.frame_time_smooth, 1_500_000);
    assert_eq!(u.frame_elapsed, 3_000_000);
    assert_eq!(u.wall_clock_elapsed, 3_000_000);
}

#[test]
fn rolled_back_clock_is_a_clock_error() {
    let mut app = new_app(1_000);
    app.init_systems();
    app.update(2_000).unwrap();
    // Remember the observable state, then roll the clock back.
    let frames = app.frame_count;
    let minions = app.world.minions_count();
    let resources = app.world.resources_count();
    let r = app.update(1_500);
    assert!(r.is_err());
    assert_eq!(app.frame_count, frames);
    assert_eq!(app.world.minions_count(), minions);
    assert_eq!(app.world.resources_count(), resources);
    // The driver recovers once the clock moves forward again.
    let u = app.update(3_000).unwrap();
    assert_eq!(u.frame_count, frames + 1);
}

#[test]
fn spawn_with_modifier_creates_minion_at_cursor() {
    let mut app = new_app(0);
    app.init_systems();
    // Pixel (52, 46) on a 100x100 viewport spanning 50 world units maps
    // to world (1.0, 2.0) with the camera at rest.
    app.on_input_event(&InputEvent::MouseMove(52, 46));
    app.on_input_event(&InputEvent::KeyDown(Key::CtrlLeft));
    app.on_input_event(&InputEvent::KeyDown(Key::MouseRight));
    app.update(0).unwrap();
    assert_eq!(app.world.minions_count(), 1);
    assert_eq!(app.world.resources_count(), 0);
    let minion = app.world.minion_at(0);
    assert_eq!(minion.position, Position { x: FP_ONE, y: 2 * FP_ONE });
    assert_eq!(app.physics.registered, vec![minion.id]);
}

#[test]
fn spawn_without_modifier_creates_resource() {
    let mut app = new_app(0);
    app.init_systems();
    app.on_input_event(&InputEvent::MouseMove(52, 46));
    app.on_input_event(&InputEvent::KeyDown(Key::MouseRight));
    app.update(0).unwrap();
    assert_eq!(app.world.minions_count(), 0);
    assert_eq!(app.world.resources_count(), 1);
    let res = app.world.resource_at(0);
    assert_eq!(res.position, Position { x: FP_ONE, y: 2 * FP_ONE });
    assert_eq!(app.physics.registered, vec![res.id]);
}

#[test]
fn right_click_is_edge_triggered() {
    let mut app = new_app(0);
    app.init_systems();
    app.on_input_event(&InputEvent::KeyDown(Key::MouseRight));
    app.update(0).unwrap();
    // The button is still held, but no new press edge arrived.
    app.update(0).unwrap();
    assert_eq!(app.world.resources_count(), 1);
}

#[test]
fn held_left_button_moves_the_light() {
    let mut app = new_app(0);
    app.init_systems();
    app.on_input_event(&InputEvent::MouseMove(52, 46));
    app.on_input_event(&InputEvent::KeyDown(Key::MouseLeft));
    app.update(0).unwrap();
    assert_eq!(app.environment().light_position, Position { x: FP_ONE, y: 2 * FP_ONE });
    // Held keys repeat: the light follows the mouse on the next frame too.
    app.on_input_event(&InputEvent::MouseMove(100, 96));
    app.update(0).unwrap();
    assert_eq!(app.environment().light_position, Position { x: 25 * FP_ONE, y: -23 * FP_ONE });
}

#[test]
fn escape_quits() {
    let mut app = new_app(0);
    app.init_systems();
    assert!(app.is_running());
    app.on_input_event(&InputEvent::KeyDown(Key::Esc));
    app.update(0).unwrap();
    assert!(!app.is_running());
}

#[test]
fn light_cycling_updates_environment_snapshot() {
    let mut app = new_app(0);
    app.init_systems();
    let before = app.environment();
    assert_eq!(before.light, Rgba { r: 1000, g: 1000, b: 1000, a: 1000 });
    app.on_app_event(Event::NextLight);
    let after = app.environment();
    assert_eq!(after.light, Rgba { r: 3100, g: 3100, b: 3100, a: 1000 });
    // The earlier snapshot was taken by value and is unaffected.
    assert_eq!(before.light, Rgba { r: 1000, g: 1000, b: 1000, a: 1000 });
    app.on_app_event(Event::PrevLight);
    assert_eq!(app.environment().light, before.light);
}

#[test]
fn background_cycling_wraps() {
    let mut app = new_app(0);
    app.init_systems();
    let first = app.environment().background;
    app.on_app_event(Event::PrevBackground);
    assert_eq!(app.environment().background, Rgba { r: 10, g: 10, b: 10, a: 1000 });
    app.on_app_event(Event::NextBackground);
    assert_eq!(app.environment().background, first);
}

#[test]
fn pixel_to_world_is_linear_off_the_viewport() {
    // A 100x100 viewport spanning 50 world units: the transform is the
    // same linear map on and off the window.
    let mut app = new_app(0);
    app.init_systems();
    app.on_input_event(&InputEvent::MouseMove(-100, 50));
    app.on_input_event(&InputEvent::KeyDown(Key::MouseLeft));
    app.update(0).unwrap();
    // x = -100 maps to (-100 - 50) / (100/50) = -75 world units; y = 50
    // is the centre line.
    assert_eq!(app.environment().light_position, Position { x: -75 * FP_ONE, y: 0 });
}

#[test]
fn resize_replaces_viewport() {
    let mut app = new_app(0);
    assert_eq!(app.viewport.ratio, 1000);
    app.on_resize(1920, 1080);
    assert_eq!(app.viewport.width, 1920);
    assert_eq!(app.viewport.height, 1080);
    assert_eq!(app.viewport.scale, 50);
    assert_eq!(app.viewport.ratio, 1777);
}

#[test]
fn world_hands_out_fresh_identities() {
    let mut w = World::new();
    let a = w.new_minion(Position { x: 0, y: 0 });
    let b = w.new_resource(Position { x: 1, y: 1 });
    assert_ne!(a, b);
    assert!(w.contains_friend(a));
    assert!(w.contains_friend(b));
    assert!(!w.contains_friend(b + 1));
}
