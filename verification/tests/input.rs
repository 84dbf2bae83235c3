use sprite_motion::input::{
    direction_for, handle_character_move, perform_camera_tracking, Edge, Key, KeyEvent,
};
use sprite_motion::motion::{step_for, MotionState, NANOS_PER_SECOND, SPEED};
use sprite_motion::scene::{run_frame, track_camera};
use sprite_motion::structs::base::{BaseAnimation, BaseDirection};
use sprite_motion::structs::scene::PanOrbitConfig;
use sprite_motion::timer::Timer;

fn down(key: Key) -> KeyEvent {
    KeyEvent { key, edge: Edge::Pressed }
}

fn up(key: Key) -> KeyEvent {
    KeyEvent { key, edge: Edge::Released }
}

#[test]
fn the_speed_is_150_units_a_second() {
    assert_eq!(SPEED, 150);
    assert_eq!(NANOS_PER_SECOND, 1_000_000_000);
    let mut m = MotionState { moving: true, direction: BaseDirection::Right, x: 0, y: 0 };
    m.advance(NANOS_PER_SECOND);
    assert_eq!(m.x, 150 * 1_000_000_000);
}

#[test]
fn keys_are_bound_in_three_sets() {
    assert_eq!(direction_for(Key::ArrowUp), Some(BaseDirection::Up));
    assert_eq!(direction_for(Key::KeyZ), Some(BaseDirection::Up));
    assert_eq!(direction_for(Key::KeyW), Some(BaseDirection::Up));
    assert_eq!(direction_for(Key::ArrowDown), Some(BaseDirection::Down));
    assert_eq!(direction_for(Key::KeyS), Some(BaseDirection::Down));
    assert_eq!(direction_for(Key::ArrowLeft), Some(BaseDirection::Left));
    assert_eq!(direction_for(Key::KeyQ), Some(BaseDirection::Left));
    assert_eq!(direction_for(Key::KeyA), Some(BaseDirection::Left));
    assert_eq!(direction_for(Key::ArrowRight), Some(BaseDirection::Right));
    assert_eq!(direction_for(Key::KeyD), Some(BaseDirection::Right));
    assert_eq!(direction_for(Key::Other), None);
}

#[test]
fn press_right_then_release_leaves_the_direction() {
    let mut a = BaseAnimation::new(0, 6, 6).unwrap();
    handle_character_move(&[down(Key::ArrowLeft), up(Key::ArrowLeft)], &mut a);
    handle_character_move(&[down(Key::ArrowRight)], &mut a);
    assert!(a.moving());
    assert_eq!(a.direction(), BaseDirection::Right);
    handle_character_move(&[up(Key::ArrowRight)], &mut a);
    assert!(!a.moving());
    assert_eq!(a.direction(), BaseDirection::Right);
}

#[test]
fn release_of_another_key_stops_as_well() {
    let mut a = BaseAnimation::new(0, 6, 6).unwrap();
    handle_character_move(&[down(Key::ArrowUp), down(Key::ArrowLeft), up(Key::ArrowUp)], &mut a);
    assert!(!a.moving());
    assert_eq!(a.direction(), BaseDirection::Left);
}

#[test]
fn the_last_key_pressed_wins() {
    let mut a = BaseAnimation::new(0, 6, 6).unwrap();
    handle_character_move(&[down(Key::KeyW), down(Key::KeyA), down(Key::KeyS)], &mut a);
    assert!(a.moving());
    assert_eq!(a.direction(), BaseDirection::Down);
}

#[test]
fn an_unbound_key_going_down_stops_the_movement() {
    let mut a = BaseAnimation::new(0, 6, 6).unwrap();
    handle_character_move(&[down(Key::KeyQ), down(Key::Other)], &mut a);
    assert!(!a.moving());
    assert_eq!(a.direction(), BaseDirection::Left);
}

#[test]
fn the_same_edge_twice_is_the_edge_once() {
    for event in [down(Key::KeyD), down(Key::Other), up(Key::KeyD)] {
        let mut once = MotionState::new(3, 4);
        once.apply(event);
        let mut twice = once;
        twice.apply(event);
        assert_eq!(twice, once);
    }
}

#[test]
fn no_events_change_nothing() {
    let mut a = BaseAnimation::new(0, 6, 6).unwrap();
    handle_character_move(&[down(Key::ArrowUp)], &mut a);
    handle_character_move(&[], &mut a);
    assert!(a.moving());
    assert_eq!(a.direction(), BaseDirection::Up);
}

#[test]
fn events_touch_neither_frame_nor_position() {
    let mut a = BaseAnimation::new(0, 6, 6).unwrap().with_origin(11, 22);
    handle_character_move(&[down(Key::ArrowRight)], &mut a);
    a.tick(170_000_000);
    let x = a.x();
    handle_character_move(&[down(Key::ArrowLeft), up(Key::ArrowLeft)], &mut a);
    assert_eq!((a.x(), a.y()), (x, 22));
    assert_eq!(a.current_frame_index(), 1);
    assert!(!a.mirrored());
    assert_eq!(a.frame_timer().period(), 166_666_666);
}

#[test]
fn the_camera_starts_at_rest_in_the_origin() {
    let c = PanOrbitConfig::default();
    assert!(!c.motion.moving);
    assert_eq!(c.motion.direction, BaseDirection::Right);
    assert_eq!((c.motion.x, c.motion.y), (0, 0));
    let d = c.with_origin(-3, 9);
    assert_eq!((d.motion.x, d.motion.y), (-3, 9));
    assert!(!d.motion.moving);
}

#[test]
fn the_camera_follows_the_keys() {
    let mut c = PanOrbitConfig::default();
    perform_camera_tracking(&[down(Key::KeyZ)], &mut c);
    assert!(c.motion.moving);
    assert_eq!(c.motion.direction, BaseDirection::Up);
    assert!(c.can_tick(16_000_000));
    c.tick(16_000_000);
    assert_eq!((c.motion.x, c.motion.y), (0, 150 * 16_000_000));
    perform_camera_tracking(&[down(Key::KeyQ), up(Key::KeyZ)], &mut c);
    assert!(!c.motion.moving);
    assert_eq!(c.motion.direction, BaseDirection::Left);
    c.tick(16_000_000);
    assert_eq!((c.motion.x, c.motion.y), (0, 150 * 16_000_000));
}

#[test]
fn the_camera_stops_on_an_unbound_key() {
    let mut c = PanOrbitConfig::default();
    perform_camera_tracking(&[down(Key::ArrowDown), down(Key::Other)], &mut c);
    assert!(!c.motion.moving);
    assert_eq!(c.motion.direction, BaseDirection::Down);
}

#[test]
fn the_camera_does_not_move_in_no_time() {
    let mut c = PanOrbitConfig::default().with_origin(1, 2);
    perform_camera_tracking(&[down(Key::ArrowLeft)], &mut c);
    for _ in 0..5 {
        c.tick(0);
        assert_eq!((c.motion.x, c.motion.y), (1, 2));
    }
}

#[test]
fn track_camera_ticks_every_camera() {
    let mut moving = PanOrbitConfig::default();
    perform_camera_tracking(&[down(Key::ArrowRight)], &mut moving);
    let mut cameras = vec![moving, PanOrbitConfig::default().with_origin(7, 7)];
    track_camera(2_000_000, &mut cameras);
    assert_eq!(cameras.len(), 2);
    assert_eq!((cameras[0].motion.x, cameras[0].motion.y), (300_000_000, 0));
    assert_eq!((cameras[1].motion.x, cameras[1].motion.y), (7, 7));
}

#[test]
fn the_camera_tells_when_its_position_would_not_fit() {
    let mut c = PanOrbitConfig::default().with_origin(i128::MIN + 300, 0);
    perform_camera_tracking(&[down(Key::ArrowLeft)], &mut c);
    assert!(c.can_tick(2));
    assert!(!c.can_tick(3));
}

#[test]
fn a_timer_completes_on_the_tick_that_reaches_its_period() {
    let mut t = Timer::new(100);
    assert_eq!(t.period(), 100);
    assert!(!t.just_completed());
    t.tick(99);
    assert!(!t.just_completed());
    assert_eq!(t.elapsed(), 99);
    t.tick(1);
    assert!(t.just_completed());
    assert_eq!(t.elapsed(), 0);
    t.tick(0);
    assert!(!t.just_completed());
    assert_eq!(t.elapsed(), 0);
}

#[test]
fn a_timer_drops_what_goes_beyond_its_period() {
    let mut t = Timer::new(100);
    t.tick(250);
    assert!(t.just_completed());
    assert_eq!(t.elapsed(), 0);
    t.tick(u64::MAX);
    assert!(t.just_completed());
    assert_eq!(t.elapsed(), 0);
    t.tick(60);
    assert!(!t.just_completed());
    t.tick(60);
    assert!(t.just_completed());
}

#[test]
fn a_timer_is_armed_anew_by_reset() {
    let mut t = Timer::new(100);
    t.tick(100);
    assert!(t.just_completed());
    t.tick(40);
    t.reset(50);
    assert_eq!(t.period(), 50);
    assert_eq!(t.elapsed(), 0);
    assert!(!t.just_completed());
    t.tick(49);
    assert!(!t.just_completed());
    t.tick(1);
    assert!(t.just_completed());
}

#[test]
fn the_step_is_the_speed_times_the_time() {
    assert_eq!(step_for(0), 0);
    assert_eq!(step_for(1), 150);
    assert_eq!(step_for(16_666_667), 2_500_000_050);
    assert_eq!(step_for(u64::MAX), 150 * (u64::MAX as i128));
}

#[test]
fn motion_at_rest_ignores_time() {
    let mut m = MotionState::new(8, -8);
    assert!(m.can_advance(u64::MAX));
    m.advance(u64::MAX);
    assert_eq!(m, MotionState { moving: false, direction: BaseDirection::Right, x: 8, y: -8 });
}

#[test]
fn a_frame_steers_first_and_ticks_then() {
    let mut player = BaseAnimation::new(0, 6, 6).unwrap();
    let mut camera = PanOrbitConfig::default();
    assert!(run_frame(&[down(Key::ArrowLeft)], 170_000_000, &mut player, &mut camera));
    assert!(player.moving());
    assert_eq!(player.direction(), BaseDirection::Left);
    assert_eq!(player.x(), -150 * 170_000_000);
    assert_eq!(player.current_frame_index(), 1);
    assert!(player.mirrored());
    assert_eq!(camera.motion.x, -150 * 170_000_000);
    assert!(run_frame(&[up(Key::ArrowLeft)], 170_000_000, &mut player, &mut camera));
    assert!(!player.moving());
    assert_eq!(player.x(), -150 * 170_000_000);
    assert_eq!(player.current_frame_index(), 0);
    assert!(player.mirrored());
    assert_eq!(camera.motion.x, -150 * 170_000_000);
    assert!(!camera.motion.moving);
}

#[test]
fn a_frame_without_events_only_ticks() {
    let mut player = BaseAnimation::new(0, 6, 6).unwrap();
    let mut camera = PanOrbitConfig::default();
    run_frame(&[down(Key::KeyW)], 1_000, &mut player, &mut camera);
    assert!(run_frame(&[], 1_000, &mut player, &mut camera));
    assert_eq!(player.y(), 300_000);
    assert_eq!(camera.motion.y, 300_000);
}

#[test]
fn a_frame_holds_the_tick_back_where_a_position_would_not_fit() {
    let mut player = BaseAnimation::new(0, 6, 6).unwrap();
    let mut camera = PanOrbitConfig::default().with_origin(i128::MAX, 0);
    assert!(!run_frame(&[down(Key::ArrowRight)], 1, &mut player, &mut camera));
    assert!(player.moving());
    assert_eq!(player.x(), 0);
    assert_eq!(player.frame_timer().elapsed(), 0);
    assert!(camera.motion.moving);
    assert_eq!(camera.motion.x, i128::MAX);
    assert!(run_frame(&[], 0, &mut player, &mut camera));
    assert!(run_frame(&[down(Key::ArrowLeft)], 1, &mut player, &mut camera));
    assert_eq!(player.x(), -150);
    assert_eq!(camera.motion.x, i128::MAX - 150);
}
