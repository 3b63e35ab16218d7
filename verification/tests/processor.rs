use rmk_pointing::event::{planar_motion, Axis, AxisEvent, AxisValType, Event};
use rmk_pointing::pointing::{PointingConfig, PointingState};
use rmk_pointing::processor::{MouseReport, Outcome, Pmw3610Processor, ProcessResult};

fn joystick(dx: i16, dy: i16) -> Event<u32> {
    Event::Joystick(planar_motion(dx, dy))
}

fn with_state(config: PointingConfig, state: PointingState) -> Pmw3610Processor {
    let mut processor = Pmw3610Processor::with_pointing_config(config);
    processor.update_pointing_state(Some(state));
    processor
}

fn base() -> PointingState {
    PointingState::new()
}

#[test]
fn cursor_report_is_clamped() {
    let processor = Pmw3610Processor::new();
    assert_eq!(
        processor.generate_report(5, -7),
        MouseReport { buttons: 0, x: 5, y: -7, wheel: 0, pan: 0 }
    );
    assert_eq!(
        processor.generate_report(500, -500),
        MouseReport { buttons: 0, x: 127, y: -128, wheel: 0, pan: 0 }
    );
}

#[test]
fn configured_level_scales() {
    let processor = Pmw3610Processor::with_pointing_config(PointingConfig::new());
    assert_eq!(processor.get_cpi_scale(), 200);
    assert_eq!(processor.apply_pointing_features(10, -3), (20, -6));
    assert_eq!(Pmw3610Processor::new().get_cpi_scale(), 100);
}

#[test]
fn level_beyond_the_last_is_the_last() {
    let state = PointingState { cpi_level: 9, ..base() };
    assert_eq!(with_state(PointingConfig::new(), state).get_cpi_scale(), 400);
}

#[test]
fn zero_base_level_counts_as_one() {
    let config = PointingConfig { cpi_levels: [0, 3, 0, 0], ..PointingConfig::new() };
    let state = PointingState { cpi_level: 1, ..base() };
    assert_eq!(with_state(config, state).get_cpi_scale(), 300);
}

#[test]
fn scale_is_never_negative() {
    let config = PointingConfig { cpi_levels: [100, 40_000, 32_767, 0], ..PointingConfig::new() };
    let scale = |cpi_level| with_state(config, PointingState { cpi_level, ..base() }).get_cpi_scale();
    // 40000 percent is more than a scale can be.
    assert_eq!(scale(1), 32_767);
    assert_eq!(scale(2), 32_767);
    assert_eq!(scale(3), 0);
    let state = PointingState { cpi_level: 1, ..base() };
    assert_eq!(with_state(config, state).apply_pointing_features(2, -2), (655, -655));
}

#[test]
fn scaling_rounds_towards_zero_and_saturates() {
    let config = PointingConfig { cpi_levels: [100, 250, 0, 0], ..PointingConfig::new() };
    let state = PointingState { cpi_level: 1, ..base() };
    let processor = with_state(config, state);
    assert_eq!(processor.apply_pointing_features(3, -3), (7, -7));
    assert_eq!(processor.apply_pointing_features(30_000, -30_000), (32_767, -32_768));
}

#[test]
fn sniper_mode_divides() {
    let state = PointingState { sniper_mode: true, ..base() };
    assert_eq!(with_state(PointingConfig::new(), state).apply_pointing_features(11, -11), (2, -2));
    let config = PointingConfig { sniper_divisor: -5, ..PointingConfig::new() };
    assert_eq!(with_state(config, state).apply_pointing_features(11, -11), (11, -11));
}

#[test]
fn snapping_to_the_dominant_axis() {
    let processor = Pmw3610Processor::new();
    assert_eq!(processor.apply_angle_snap(31, 10), (31, 0));
    assert_eq!(processor.apply_angle_snap(30, 10), (30, 10));
    assert_eq!(processor.apply_angle_snap(-10, -31), (0, -31));
    assert_eq!(processor.apply_angle_snap(0, 0), (0, 0));
    assert_eq!(processor.apply_angle_snap(i16::MIN, 0), (i16::MIN, 0));
    assert_eq!(processor.apply_angle_snap(i16::MIN, i16::MIN), (i16::MIN, i16::MIN));
    let state = PointingState { angle_snap: true, ..base() };
    let processor = with_state(PointingConfig::new(), state);
    assert_eq!(processor.apply_pointing_features(-50, 7), (-50, 0));
}

#[test]
fn scroll_mode_reports_wheel_and_pan() {
    let state = PointingState { scroll_mode: true, ..base() };
    let processor = with_state(PointingConfig::new(), state);
    assert_eq!(
        processor.generate_report(10, 21),
        MouseReport { buttons: 0, x: 0, y: 0, wheel: -5, pan: 2 }
    );
    assert_eq!(
        processor.generate_report(-2000, -2000),
        MouseReport { buttons: 0, x: 0, y: 0, wheel: 127, pan: -128 }
    );
    let config = PointingConfig { scroll_divisor: 0, ..PointingConfig::new() };
    assert_eq!(with_state(config, state).generate_report(3, 4).pan, 3);
}

#[test]
fn drag_lock_shows_in_both_modes() {
    for button in 0..8u8 {
        let state = PointingState { drag_lock_button: Some(button), ..base() };
        assert_eq!(with_state(PointingConfig::new(), state).get_drag_lock_buttons(), 1 << button);
        let scrolling = PointingState { scroll_momentary: true, ..state };
        let report = with_state(PointingConfig::new(), scrolling).generate_report(0, 0);
        assert_eq!(report, MouseReport { buttons: 1 << button, x: 0, y: 0, wheel: 0, pan: 0 });
    }
    assert_eq!(Pmw3610Processor::new().get_drag_lock_buttons(), 0);
}

#[test]
fn unreportable_movement_is_told_apart() {
    let snap = PointingState { angle_snap: true, ..base() };
    let processor = with_state(PointingConfig::new(), snap);
    assert!(processor.can_report(i16::MIN, 0));
    assert!(processor.can_report(0, i16::MIN));
    assert_eq!(processor.apply_pointing_features(i16::MIN, 5), (i16::MIN, 0));
    let scroll = PointingState { scroll_mode: true, ..base() };
    let processor = with_state(PointingConfig::new(), scroll);
    assert!(!processor.can_report(0, i16::MIN));
    assert!(processor.can_report(i16::MIN, 0));
    let locked = PointingState { drag_lock_button: Some(8), ..base() };
    assert!(!with_state(PointingConfig::new(), locked).can_report(0, 0));
    let processor = Pmw3610Processor::new();
    assert!(processor.can_report(i16::MIN, i16::MIN));
    assert!(!processor.can_process(&Some(locked), &joystick(0, 0)));
    assert!(processor.can_process(&Some(locked), &Event::Other(3)));
    assert!(processor.can_process(&None, &joystick(0, 0)));
}

#[test]
fn last_event_of_an_axis_counts() {
    let rel = |axis, value| AxisEvent { typ: AxisValType::Rel, axis, value };
    let mut processor = Pmw3610Processor::new();
    let event: Event<u32> = Event::Joystick([rel(Axis::X, 1), rel(Axis::Z, 50), rel(Axis::X, 2)]);
    let outcome = processor.process_at(None, event, 0, 0);
    assert_eq!(outcome.report, Some(MouseReport { buttons: 0, x: 2, y: 0, wheel: 0, pan: 0 }));
    assert!(matches!(outcome.result, ProcessResult::Stop));
}

#[test]
fn other_events_pass_on() {
    let mut processor = Pmw3610Processor::new();
    let outcome = processor.process_at(None, Event::Other(42u32), 0, 0);
    assert!(matches!(outcome.result, ProcessResult::Continue(Event::Other(42))));
    assert_eq!(outcome.report, None);
    assert_eq!((outcome.deactivate, outcome.activate), (None, None));
}

#[test]
fn signal_takes_effect_at_once() {
    let mut processor = Pmw3610Processor::new();
    let scroll = PointingState { scroll_mode: true, ..base() };
    let outcome = processor.process_at(Some(scroll), joystick(8, -8), 0, 0);
    assert_eq!(outcome.report, Some(MouseReport { buttons: 0, x: 0, y: 0, wheel: 2, pan: 2 }));
    let outcome = processor.process_at(None, joystick(8, -8), 0, 0);
    assert_eq!(outcome.report, Some(MouseReport { buttons: 0, x: 0, y: 0, wheel: 2, pan: 2 }));
}

fn layers(outcome: Outcome<u32>) -> (Option<u8>, Option<u8>) {
    (outcome.deactivate, outcome.activate)
}

#[test]
fn auto_mouse_layer_comes_and_goes() {
    let mut processor = Pmw3610Processor::with_auto_mouse(4, 600);
    assert_eq!(layers(processor.process_at(None, joystick(0, 0), 5, 5)), (None, None));
    assert_eq!(layers(processor.process_at(None, joystick(1, 0), 10, 1000)), (None, Some(4)));
    assert_eq!(layers(processor.process_at(None, joystick(0, 1), 2000, 3000)), (None, None));
    // 599 whole milliseconds after the last motion.
    assert_eq!(layers(processor.process_at(None, joystick(0, 0), 602_999, 0)), (None, None));
    // 600 of them.
    assert_eq!(layers(processor.process_at(None, joystick(0, 0), 603_000, 0)), (Some(4), None));
    assert_eq!(layers(processor.process_at(None, joystick(0, 0), 9_999_999, 0)), (None, None));
    assert_eq!(layers(processor.process_at(None, joystick(3, 3), 9_999_999, 10_000_000)), (None, Some(4)));
    // A timeout and a motion in one event.
    assert_eq!(layers(processor.process_at(None, joystick(3, 3), 99_999_999, 99_999_999)), (Some(4), Some(4)));
    assert_eq!(layers(processor.process_at(None, Event::Other(0), 199_999_999, 0)), (Some(4), None));
}

#[test]
fn long_rest_times_out_too() {
    for millis in [1000u64, 1 << 32, (1 << 32) + 5] {
        let mut processor =
            Pmw3610Processor::with_auto_mouse_and_pointing_config(1, 1000, PointingConfig::new());
        processor.process_at(None, joystick(1, 1), 0, 0);
        let outcome = processor.process_at(None, Event::Other(0), millis * 1000, 0);
        assert_eq!(layers(outcome), (Some(1), None));
    }
}

#[test]
fn higher_divisor_is_slower() {
    let state = PointingState { sniper_mode: true, ..base() };
    let mut last = i16::MAX;
    for sniper_divisor in 1..50 {
        let config = PointingConfig { sniper_divisor, ..PointingConfig::new() };
        let (x, _) = with_state(config, state).apply_pointing_features(100, 0);
        assert!(x <= last);
        last = x;
    }
    assert_eq!(last, 2);
}

#[test]
fn no_layer_without_configuration() {
    let mut processor = Pmw3610Processor::new();
    assert_eq!(layers(processor.process_at(None, joystick(1, 1), 0, 0)), (None, None));
    assert_eq!(processor.check_auto_mouse_timeout(1 << 40), None);
    assert_eq!(processor.activate_auto_mouse(1 << 40), None);
}

#[test]
fn present_time_decides_on_the_timeout() {
    let mut processor = Pmw3610Processor::with_auto_mouse(2, 20);
    assert_eq!(layers(processor.process(None, joystick(1, 0))), (None, Some(2)));
    embassy_time::block_for(embassy_time::Duration::from_millis(25));
    assert_eq!(layers(processor.process(None, joystick(0, 0))), (Some(2), None));
    let mut processor = Pmw3610Processor::with_auto_mouse(2, 3_600_000);
    processor.process(None, joystick(1, 0));
    assert_eq!(layers(processor.process(None, joystick(0, 0))), (None, None));
}
