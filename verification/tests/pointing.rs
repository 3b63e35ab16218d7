use rmk_pointing::pointing::{
    AccelerationCurve, Gesture, GestureDetector, PointingConfig, PointingState,
};

#[test]
fn test_pointing_state_default() {
    let state = PointingState::new();
    assert!(!state.scroll_mode);
    assert!(!state.sniper_mode);
    assert!(state.drag_lock_button.is_none());
    assert_eq!(state.cpi_level, 0);
}

#[test]
fn test_scroll_mode_xor() {
    let mut state = PointingState::new();
    assert!(!state.is_scroll_active());

    state.scroll_mode = true;
    assert!(state.is_scroll_active());

    state.scroll_momentary = true;
    assert!(!state.is_scroll_active()); // XOR: both true = false

    state.scroll_mode = false;
    assert!(state.is_scroll_active()); // Only momentary
}

#[test]
fn test_pointing_config_default() {
    let config = PointingConfig::default();
    assert_eq!(config.cpi_levels, [400, 800, 1200, 1600]);
    assert_eq!(config.default_cpi_index, 1);
    assert_eq!(config.scroll_divisor, 4);
}

#[test]
fn test_gesture_detector() {
    let mut detector = GestureDetector::new();
    let config = PointingConfig {
        gesture_enabled: true,
        gesture_threshold: 50,
        gesture_timeout_ms: 200,
        ..Default::default()
    };

    // Accumulate rightward movement
    for i in 0..10 {
        detector.accumulate(10, 0, i * 10, &config);
    }

    // Check gesture on timeout
    let gesture = detector.on_idle(250, &config);
    assert_eq!(gesture, Some(Gesture::Right));
}

fn gestures() -> PointingConfig {
    PointingConfig { gesture_enabled: true, ..PointingConfig::new() }
}

fn swipe(dx: i16, dy: i16) -> Option<Gesture> {
    let config = gestures();
    let mut detector = GestureDetector::new();
    assert_eq!(detector.accumulate(dx, dy, 1000, &config), None);
    detector.on_idle(1201, &config)
}

#[test]
fn angle_snap_is_toggle_xor_key() {
    let mut state = PointingState::default();
    assert!(!state.is_angle_snap_active());
    state.angle_snap_momentary = true;
    assert!(state.is_angle_snap_active());
    state.angle_snap = true;
    assert!(!state.is_angle_snap_active());
}

#[test]
fn remaining_config_defaults() {
    let config = PointingConfig::new();
    assert_eq!(config.sniper_divisor, 4);
    assert_eq!(config.angle_snap_ratio, 3);
    assert!(!config.gesture_enabled);
    assert_eq!(config.gesture_threshold, 50);
    assert_eq!(config.gesture_timeout_ms, 200);
    assert_eq!(config.acceleration_curve, AccelerationCurve::Linear);
    assert_eq!(AccelerationCurve::default(), AccelerationCurve::Linear);
}

#[test]
fn swipes_in_all_directions() {
    assert_eq!(swipe(60, 0), Some(Gesture::Right));
    assert_eq!(swipe(-60, 0), Some(Gesture::Left));
    assert_eq!(swipe(0, 60), Some(Gesture::Down));
    assert_eq!(swipe(0, -60), Some(Gesture::Up));
}

#[test]
fn threshold_has_to_be_reached() {
    assert_eq!(swipe(49, 0), None);
    assert_eq!(swipe(50, 0), Some(Gesture::Right));
    assert_eq!(swipe(0, -49), None);
    assert_eq!(swipe(0, -50), Some(Gesture::Up));
}

#[test]
fn no_movement_is_no_gesture() {
    let config = PointingConfig { gesture_threshold: 0, ..gestures() };
    let mut detector = GestureDetector::new();
    detector.accumulate(0, 0, 0, &config);
    assert_eq!(detector.on_idle(500, &config), None);
}

#[test]
fn dominant_axis_needs_one_and_a_half_times() {
    assert_eq!(swipe(90, 60), None);
    assert_eq!(swipe(91, 60), Some(Gesture::Right));
    assert_eq!(swipe(60, 90), None);
    assert_eq!(swipe(-60, 91), Some(Gesture::Down));
}

#[test]
fn timeout_is_exclusive() {
    let config = gestures();
    let mut detector = GestureDetector::new();
    detector.accumulate(80, 0, 100, &config);
    assert_eq!(detector.on_idle(300, &config), None);
    assert_eq!(detector.on_idle(301, &config), Some(Gesture::Right));
    // The detector has been reset.
    assert_eq!(detector.on_idle(10_000, &config), None);
}

#[test]
fn late_movement_is_evaluated_at_once() {
    let config = gestures();
    let mut detector = GestureDetector::default();
    assert_eq!(detector.accumulate(40, 0, 0, &config), None);
    assert_eq!(detector.accumulate(20, 0, 201, &config), Some(Gesture::Right));
    // A new gesture begins with the next movement.
    assert_eq!(detector.accumulate(40, 0, 300, &config), None);
    assert_eq!(detector.on_idle(501, &config), None);
}

#[test]
fn time_before_the_start_counts_as_none() {
    let config = gestures();
    let mut detector = GestureDetector::new();
    detector.accumulate(80, 0, 1000, &config);
    assert_eq!(detector.on_idle(10, &config), None);
    assert_eq!(detector.on_idle(1201, &config), Some(Gesture::Right));
}

#[test]
fn disabled_gestures_leave_the_detector_alone() {
    let off = PointingConfig::new();
    let on = gestures();
    let mut detector = GestureDetector::new();
    detector.accumulate(80, 0, 0, &on);
    assert_eq!(detector.accumulate(-500, 0, 500, &off), None);
    assert_eq!(detector.on_idle(500, &off), None);
    assert_eq!(detector.on_idle(500, &on), Some(Gesture::Right));
}

#[test]
fn reset_forgets_movement() {
    let config = gestures();
    let mut detector = GestureDetector::new();
    detector.accumulate(80, 0, 0, &config);
    detector.reset();
    assert_eq!(detector.on_idle(500, &config), None);
}

#[test]
fn movements_add_up() {
    let config = gestures();
    let mut detector = GestureDetector::new();
    detector.accumulate(100, 7, 0, &config);
    detector.accumulate(-160, -7, 10, &config);
    assert_eq!(detector.evaluate_gesture(&config), Some(Gesture::Left));
}
