use vaja_1::world::World;

fn corner_world() -> World {
    let mut world = World::new(3);
    world.set_cell(0, 0, true);
    world
}

#[test]
fn sixty_frames_per_second_is_sixteen_milliseconds() {
    assert_eq!(World::fps_to_speed(60), 16);
    let mut world = World::new(2);
    world.set_fps(60);
    assert_eq!(world.speed(), 16);
}

#[test]
fn one_frame_per_second_is_a_thousand_milliseconds() {
    assert_eq!(World::fps_to_speed(1), 1000);
    let mut world = World::new(2);
    world.set_fps(1);
    assert_eq!(world.fps(), 1);
    assert_eq!(world.speed(), 1000);
}

#[test]
fn speed_is_cut_to_whole_milliseconds() {
    assert_eq!(World::fps_to_speed(2), 500);
    assert_eq!(World::fps_to_speed(3), 333);
    assert_eq!(World::fps_to_speed(7), 142);
    assert_eq!(World::fps_to_speed(30), 33);
    assert_eq!(World::fps_to_speed(144), 6);
    assert_eq!(World::fps_to_speed(360), 2);
    for fps in 1..=360 {
        assert_eq!(World::fps_to_speed(fps), (1000 / fps) as u128);
    }
}

#[test]
fn update_speed_keeps_the_derived_speed() {
    let mut world = World::new(2);
    world.set_fps(25);
    assert_eq!(world.speed(), 40);
    world.update_speed();
    assert_eq!(world.speed(), 40);
    assert_eq!(world.fps(), 25);
}

#[test]
fn early_update_changes_nothing() {
    let mut world = corner_world();
    assert!(!world.update_after(0));
    assert!(world.is_alive(0, 0));
    assert!(!world.update_after(15));
    assert!(world.is_alive(0, 0));
    assert_eq!(world.speed(), 16);
    assert_eq!(world.fps(), 60);
}

#[test]
fn update_on_time_steps_once() {
    let mut world = corner_world();
    assert!(world.update_after(16));
    assert!(!world.is_alive(0, 0));
    let mut late = corner_world();
    assert!(late.update_after(5000));
    assert!(!late.is_alive(0, 0));
}

#[test]
fn gate_follows_the_frame_rate() {
    let mut world = corner_world();
    world.set_fps(1);
    assert!(!world.update_after(999));
    assert!(world.is_alive(0, 0));
    assert!(world.update_after(1000));
    assert!(!world.is_alive(0, 0));
}

#[test]
fn update_right_after_construction_is_too_early() {
    let mut world = corner_world();
    world.set_fps(1);
    world.update();
    assert!(world.is_alive(0, 0));
}

#[test]
fn update_steps_once_the_time_has_passed() {
    let mut world = corner_world();
    world.set_fps(360);
    let start = std::time::Instant::now();
    while start.elapsed().as_millis() < 10 {
        std::hint::spin_loop();
    }
    world.update();
    assert!(!world.is_alive(0, 0));
    // The step has reset the clock: at one frame per second the next call
    // comes too early.
    world.set_cell(0, 0, true);
    world.set_fps(1);
    world.update();
    assert!(world.is_alive(0, 0));
}
