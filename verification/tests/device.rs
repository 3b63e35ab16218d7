use rmk_pointing::event::{Axis, AxisEvent, AxisValType};
use rmk_pointing::pmw3610::bus::{BusAction, BusEvent};
use rmk_pointing::pmw3610::device::{DeviceAction, DeviceEvent, Pmw3610Device};
use rmk_pointing::pmw3610::sensor::PinReading;
use rmk_pointing::pmw3610::types::Pmw3610Config;

/// What a bus action comes to on a sensor whose registers all hold `value`.
fn answer(action: BusAction, value: u8, burst: [u8; 7]) -> BusEvent {
    match action {
        BusAction::Receive { len: 1 } => {
            BusEvent::Received { frame: [value, 0, 0, 0, 0, 0, 0] }
        }
        BusAction::Receive { .. } => BusEvent::Received { frame: burst },
        _ => BusEvent::Done,
    }
}

/// Performs bus actions until something else is asked for. The first register read
/// is answered with the product ID, later ones with all ones.
fn run_bus(device: &mut Pmw3610Device, mut action: DeviceAction, burst: [u8; 7], now: u64) -> DeviceAction {
    let mut first_read = true;
    while let DeviceAction::Bus(bus) = action {
        let mut event = answer(bus, 0xff, burst);
        if first_read && matches!(bus, BusAction::Receive { len: 1 }) {
            first_read = false;
            event = answer(bus, 0x3e, burst);
        }
        action = device.step_at(DeviceEvent::Bus(event), now).unwrap();
    }
    action
}

fn fail_bus(device: &mut Pmw3610Device, mut action: DeviceAction) -> DeviceAction {
    while let DeviceAction::Bus(bus) = action {
        let event = match bus {
            BusAction::SendAddress { .. } | BusAction::SendWrite { .. } => BusEvent::Failed,
            _ => BusEvent::Done,
        };
        action = device.step_at(DeviceEvent::Bus(event), 0).unwrap();
    }
    action
}

fn ready_device() -> Pmw3610Device {
    let mut device = Pmw3610Device::new(Pmw3610Config::default());
    device.read_event();
    let action = device.step_at(DeviceEvent::Elapsed, 0).unwrap();
    assert!(matches!(action, DeviceAction::Bus(BusAction::Deselect)));
    let action = run_bus(&mut device, action, [0; 7], 0);
    assert!(matches!(action, DeviceAction::SamplePin));
    device
}

fn axes(dx: i16, dy: i16) -> [AxisEvent; 3] {
    let rel = |axis, value| AxisEvent { typ: AxisValType::Rel, axis, value };
    [rel(Axis::X, dx), rel(Axis::Y, dy), rel(Axis::Z, 0)]
}

fn sleeps(action: Option<DeviceAction>) -> Option<u64> {
    match action {
        Some(DeviceAction::Sleep { ticks }) => Some(ticks),
        _ => None,
    }
}

#[test]
fn polling_interval() {
    let mut device = Pmw3610Device::new(Pmw3610Config::default());
    assert_eq!(sleeps(Some(device.read_event())), Some(500));
    let mut device = Pmw3610Device::with_poll_interval(Pmw3610Config::default(), 1234);
    assert_eq!(sleeps(Some(device.read_event())), Some(1234));
}

#[test]
fn three_attempts_and_then_given_up() {
    let mut device = Pmw3610Device::new(Pmw3610Config::default());
    device.read_event();
    for attempt in 1..=3 {
        let action = device.step_at(DeviceEvent::Elapsed, 0).unwrap();
        assert!(matches!(action, DeviceAction::Bus(_)));
        let action = fail_bus(&mut device, action);
        if attempt < 3 {
            assert_eq!(sleeps(Some(action)), Some(100_000));
            assert_eq!(sleeps(device.step_at(DeviceEvent::Elapsed, 0)), Some(500));
        } else {
            assert_eq!(sleeps(Some(action)), Some(500));
        }
    }
    for _ in 0..10 {
        assert_eq!(sleeps(device.step_at(DeviceEvent::Elapsed, 0)), Some(500));
    }
}

#[test]
fn another_reading_brings_no_more_attempts() {
    let mut device = Pmw3610Device::new(Pmw3610Config::default());
    let mut attempts = 0;
    for _ in 0..10 {
        device.read_event();
        let action = device.step_at(DeviceEvent::Elapsed, 0).unwrap();
        if matches!(action, DeviceAction::Bus(_)) {
            attempts += 1;
        }
        fail_bus(&mut device, action);
    }
    assert_eq!(attempts, 3);
}

#[test]
fn second_attempt_can_succeed() {
    let mut device = Pmw3610Device::new(Pmw3610Config::default());
    device.read_event();
    let action = device.step_at(DeviceEvent::Elapsed, 0).unwrap();
    fail_bus(&mut device, action);
    device.step_at(DeviceEvent::Elapsed, 0);
    let action = device.step_at(DeviceEvent::Elapsed, 0).unwrap();
    let action = run_bus(&mut device, action, [0; 7], 0);
    assert!(matches!(action, DeviceAction::SamplePin));
}

#[test]
fn movement_is_emitted() {
    let mut device = ready_device();
    let action = device.step_at(DeviceEvent::Pin(PinReading::Low), 0).unwrap();
    assert!(matches!(action, DeviceAction::Bus(BusAction::Select)));
    let action = run_bus(&mut device, action, [0x80, 7, 0xff, 0x0f, 0, 0, 0], 10);
    match action {
        DeviceAction::Emit(emitted) => assert_eq!(emitted, axes(7, -1)),
        other => panic!("{:?}", other),
    }
}

#[test]
fn burst_without_movement_polls_on() {
    let mut device = ready_device();
    let action = device.step_at(DeviceEvent::Pin(PinReading::Absent), 0).unwrap();
    let action = run_bus(&mut device, action, [0x80, 0, 0, 0, 0, 0, 0], 10);
    assert_eq!(sleeps(Some(action)), Some(500));
}

#[test]
fn failed_reading_polls_on() {
    let mut device = ready_device();
    let action = device.step_at(DeviceEvent::Pin(PinReading::Unreadable), 0).unwrap();
    let action = fail_bus(&mut device, action);
    assert_eq!(sleeps(Some(action)), Some(500));
}

#[test]
fn no_heartbeat_before_the_first_event() {
    let mut device = ready_device();
    assert_eq!(sleeps(device.step_at(DeviceEvent::Pin(PinReading::High), 0)), Some(500));
    device.step_at(DeviceEvent::Elapsed, 10_000_000);
    assert_eq!(sleeps(device.step_at(DeviceEvent::Pin(PinReading::High), 10_000_000)), Some(500));
}

#[test]
fn heartbeat_after_fifty_milliseconds() {
    let mut device = ready_device();
    let action = device.step_at(DeviceEvent::Pin(PinReading::Low), 0).unwrap();
    run_bus(&mut device, action, [0x80, 7, 0, 0, 0, 0, 0], 1000);

    device.read_event();
    device.step_at(DeviceEvent::Elapsed, 50_999);
    assert_eq!(sleeps(device.step_at(DeviceEvent::Pin(PinReading::High), 51_000)), Some(500));

    device.step_at(DeviceEvent::Elapsed, 51_000);
    match device.step_at(DeviceEvent::Pin(PinReading::High), 51_001) {
        Some(DeviceAction::Emit(emitted)) => assert_eq!(emitted, axes(0, 0)),
        other => panic!("{:?}", other),
    }

    // The heartbeat counts as an event.
    device.read_event();
    device.step_at(DeviceEvent::Elapsed, 101_000);
    assert_eq!(sleeps(device.step_at(DeviceEvent::Pin(PinReading::High), 101_000)), Some(500));
}

/// A ready device that emitted an event at tick 1000 and then waited until a heartbeat
/// was due.
fn device_with_due_heartbeat() -> Pmw3610Device {
    let mut device = ready_device();
    let action = device.step_at(DeviceEvent::Pin(PinReading::Low), 0).unwrap();
    run_bus(&mut device, action, [0x80, 7, 0, 0, 0, 0, 0], 1000);
    device.read_event();
    device.step_at(DeviceEvent::Elapsed, 51_000);
    device
}

#[test]
fn heartbeat_without_a_deciding_pin() {
    for reading in [PinReading::Absent, PinReading::Unreadable, PinReading::Low] {
        for burst in [[0u8; 7], [0x80, 0, 0, 0, 0, 0, 0]] {
            let mut device = device_with_due_heartbeat();
            let action = device.step_at(DeviceEvent::Pin(reading), 51_000).unwrap();
            match run_bus(&mut device, action, burst, 51_000) {
                DeviceAction::Emit(emitted) => assert_eq!(emitted, axes(0, 0)),
                other => panic!("{:?}", other),
            }
            // The heartbeat counts as an event.
            device.read_event();
            device.step_at(DeviceEvent::Elapsed, 100_999);
            let action = device.step_at(DeviceEvent::Pin(reading), 100_999).unwrap();
            let action = run_bus(&mut device, action, burst, 100_999);
            assert_eq!(sleeps(Some(action)), Some(500));
        }
    }
}

#[test]
fn movement_goes_before_a_due_heartbeat() {
    let mut device = device_with_due_heartbeat();
    let action = device.step_at(DeviceEvent::Pin(PinReading::Absent), 51_000).unwrap();
    match run_bus(&mut device, action, [0x80, 0, 1, 0x80, 0, 0, 0], 51_000) {
        DeviceAction::Emit(emitted) => assert_eq!(emitted, axes(-2048, 1)),
        other => panic!("{:?}", other),
    }
}

#[test]
fn failed_reading_emits_no_heartbeat() {
    let mut device = device_with_due_heartbeat();
    let mut action = device.step_at(DeviceEvent::Pin(PinReading::Absent), 51_000).unwrap();
    while let DeviceAction::Bus(bus) = action {
        let event = match bus {
            BusAction::SendAddress { .. } => BusEvent::Failed,
            _ => BusEvent::Done,
        };
        action = device.step_at(DeviceEvent::Bus(event), 51_000).unwrap();
    }
    assert_eq!(sleeps(Some(action)), Some(500));
}

#[test]
fn events_out_of_turn_are_refused() {
    let mut device = Pmw3610Device::new(Pmw3610Config::default());
    assert!(device.step_at(DeviceEvent::Elapsed, 0).is_none());
    device.read_event();
    assert!(device.step_at(DeviceEvent::Pin(PinReading::Low), 0).is_none());
    assert!(device.step_at(DeviceEvent::Bus(BusEvent::Done), 0).is_none());
    assert!(device.step_at(DeviceEvent::Elapsed, 0).is_some());
}

#[test]
fn present_time_decides_on_the_heartbeat() {
    let mut device = ready_device();
    let mut action = device.step(DeviceEvent::Pin(PinReading::Low)).unwrap();
    while let DeviceAction::Bus(bus) = action {
        let event = answer(bus, 0, [0x80, 1, 0, 0, 0, 0, 0]);
        action = device.step(DeviceEvent::Bus(event)).unwrap();
    }
    assert!(matches!(action, DeviceAction::Emit(_)));
    device.read_event();
    embassy_time::block_for(embassy_time::Duration::from_millis(55));
    device.step(DeviceEvent::Elapsed);
    assert!(matches!(device.step(DeviceEvent::Pin(PinReading::High)), Some(DeviceAction::Emit(_))));
}
