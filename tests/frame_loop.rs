use lit_cube::frame::{rotation_degrees, LoopState, RenderLoop, Tick, FULL_TURN};

#[test]
fn rotation_degrees_wraps_every_full_turn() {
    assert_eq!(rotation_degrees(0), 0);
    assert_eq!(rotation_degrees(1), 1);
    assert_eq!(rotation_degrees(359), 359);
    assert_eq!(rotation_degrees(360), 0);
    assert_eq!(rotation_degrees(361), 1);
    assert_eq!(rotation_degrees(725), 5);
    assert_eq!(rotation_degrees(u64::MAX), u64::MAX % 360);
    assert_eq!(FULL_TURN, 360);
}

#[test]
fn rotation_is_periodic_over_many_frames() {
    for f in 0..2000u64 {
        assert_eq!(rotation_degrees(f), rotation_degrees(f + 360));
    }
}

#[test]
fn frame_zero_is_unrotated() {
    assert_eq!(rotation_degrees(0), 0);
}

#[test]
fn first_visible_frame_is_frame_one() {
    let mut driver = RenderLoop::new();
    assert_eq!(driver.frame(), 0);
    assert_eq!(driver.state(), LoopState::Idle);
    assert!(driver.start());
    assert_eq!(driver.state(), LoopState::Scheduled);
    assert_eq!(driver.tick(), Some(Tick { frame: 1, degrees: 1 }));
    assert_eq!(driver.frame(), 1);
}

#[test]
fn ticks_advance_one_frame_each() {
    let mut driver = RenderLoop::new();
    assert!(driver.start());
    for expected in 1..=400u64 {
        let tick = driver.tick().unwrap();
        assert_eq!(tick.frame, expected);
        assert_eq!(tick.degrees, expected % 360);
        driver.schedule_result(true);
    }
    assert_eq!(driver.frame(), 400);
    assert_eq!(driver.state(), LoopState::Scheduled);
}

#[test]
fn idle_driver_runs_no_tick() {
    let mut driver = RenderLoop::new();
    assert_eq!(driver.tick(), None);
    assert_eq!(driver.frame(), 0);
    assert_eq!(driver.state(), LoopState::Idle);
}

#[test]
fn start_twice_requests_one_tick() {
    let mut driver = RenderLoop::new();
    assert!(driver.start());
    assert!(!driver.start());
    assert_eq!(driver.state(), LoopState::Scheduled);
}

#[test]
fn refused_schedule_stops_the_loop() {
    let mut driver = RenderLoop::new();
    assert!(driver.start());
    assert!(driver.tick().is_some());
    driver.schedule_result(false);
    assert_eq!(driver.state(), LoopState::Stopped);
    assert_eq!(driver.tick(), None);
    assert_eq!(driver.frame(), 1);
    assert!(!driver.start());
    assert_eq!(driver.state(), LoopState::Stopped);
}
