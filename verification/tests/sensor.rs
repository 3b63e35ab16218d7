use rmk_pointing::pmw3610::bus::{BusAction, BusEvent, Transfer};
use rmk_pointing::pmw3610::motion::{decide_smart_change, decode_motion, has_motion, sign_extend};
use rmk_pointing::pmw3610::sensor::{PinReading, Pmw3610, Progress};
use rmk_pointing::pmw3610::types::{MotionData, Pmw3610Config, Pmw3610Error};

/// A sensor on the other end of the bus.
struct Chip {
    page1: bool,
    pages: [[u8; 128]; 2],
    burst: [u8; 7],
    address: u8,
    fail_at: Option<usize>,
    observation: u8,
    log: Vec<BusAction>,
    writes: Vec<(u8, u8)>,
}

impl Chip {
    fn new() -> Chip {
        let mut pages = [[0u8; 128]; 2];
        pages[0][0x00] = 0x3e;
        Chip {
            page1: false,
            pages,
            burst: [0; 7],
            address: 0,
            fail_at: None,
            observation: 0x0f,
            log: Vec::new(),
            writes: Vec::new(),
        }
    }

    fn perform(&mut self, action: BusAction) -> BusEvent {
        if self.fail_at == Some(self.log.len()) {
            self.log.push(action);
            return BusEvent::Failed;
        }
        self.log.push(action);
        match action {
            BusAction::SendAddress { byte } => {
                self.address = byte;
                BusEvent::Done
            }
            BusAction::SendWrite { byte, value } => {
                let addr = byte & 0x7f;
                self.writes.push((addr, value));
                if addr == 0x7f {
                    self.page1 = value == 0xff;
                } else if !self.page1 && addr == 0x2d {
                    self.pages[0][0x2d] = self.observation;
                } else {
                    self.pages[self.page1 as usize][addr as usize] = value;
                }
                BusEvent::Done
            }
            BusAction::Receive { len } => {
                let mut frame = [0u8; 7];
                if !self.page1 && self.address == 0x12 {
                    frame[..len].copy_from_slice(&self.burst[..len]);
                } else {
                    frame[0] = self.pages[self.page1 as usize][self.address as usize];
                }
                BusEvent::Received { frame }
            }
            _ => BusEvent::Done,
        }
    }

    fn run(&mut self, sensor: &mut Pmw3610, mut progress: Progress) -> Progress {
        loop {
            match progress {
                Progress::Perform(action) => {
                    let event = self.perform(action);
                    progress = sensor.step(event).unwrap();
                }
                over => return over,
            }
        }
    }
}

fn run_init(config: Pmw3610Config, chip: &mut Chip) -> Progress {
    let mut sensor = Pmw3610::new(config);
    let first = sensor.init();
    chip.run(&mut sensor, first)
}

#[test]
fn default_sensor_config() {
    let config = Pmw3610Config::default();
    assert_eq!(config.res_cpi, -1);
    assert!(!config.invert_x && !config.invert_y && !config.swap_xy);
    assert!(!config.force_awake && !config.smart_mode);
    assert_eq!(MotionData::default(), MotionData { dx: 0, dy: 0 });
}

#[test]
fn motion_pin_is_active_low() {
    let sensor = Pmw3610::new(Pmw3610Config::default());
    assert!(sensor.motion_pending(PinReading::Low));
    assert!(!sensor.motion_pending(PinReading::High));
    assert!(sensor.motion_pending(PinReading::Absent));
    assert!(sensor.motion_pending(PinReading::Unreadable));
}

#[test]
fn register_read_on_the_bus() {
    let read = Transfer::ReadReg { addr: 0x91 };
    let steps: Vec<_> = (0..9).map(|i| read.action(i)).collect();
    assert_eq!(
        steps,
        vec![
            Some(BusAction::Select),
            Some(BusAction::Delay { ticks: 1 }),
            Some(BusAction::SendAddress { byte: 0x11 }),
            Some(BusAction::Delay { ticks: 5 }),
            Some(BusAction::Receive { len: 1 }),
            Some(BusAction::ShortDelay),
            Some(BusAction::Deselect),
            Some(BusAction::Delay { ticks: 2 }),
            None,
        ]
    );
}

#[test]
fn register_write_on_the_bus() {
    let write = Transfer::WriteReg { addr: 0x41, value: 0xba };
    let steps: Vec<_> = (0..7).map(|i| write.action(i)).collect();
    assert_eq!(
        steps,
        vec![
            Some(BusAction::Select),
            Some(BusAction::Delay { ticks: 1 }),
            Some(BusAction::SendWrite { byte: 0xc1, value: 0xba }),
            Some(BusAction::Delay { ticks: 20 }),
            Some(BusAction::Deselect),
            Some(BusAction::Delay { ticks: 35 }),
            None,
        ]
    );
}

#[test]
fn sign_extension_of_twelve_bits() {
    assert_eq!(sign_extend(0x7ff, 11), 2047);
    assert_eq!(sign_extend(0x800, 11), -2048);
    assert_eq!(sign_extend(0xfff, 11), -1);
    assert_eq!(sign_extend(0x000, 11), 0);
    assert_eq!(sign_extend(0x7fff, 15), 0x7fff);
    assert_eq!(sign_extend(0x4000, 14), -0x4000);
}

#[test]
fn burst_decoding() {
    // X is 0x123, Y is 0xf85.
    let frame = [0x80, 0x23, 0x85, 0x1f, 0, 0, 0];
    assert!(has_motion(&frame));
    assert_eq!(decode_motion(&frame), MotionData { dx: 0x123, dy: -0x7b });
    let frame = [0x7f, 0xff, 0x00, 0x80, 0, 0, 0];
    assert!(!has_motion(&frame));
    assert_eq!(decode_motion(&frame), MotionData { dx: -0x701, dy: 0 });
}

#[test]
fn smart_change_around_the_threshold() {
    let shutter = |v: u16| [0, 0, 0, 0, 0, (v >> 8) as u8, v as u8];
    assert_eq!(decide_smart_change(false, &shutter(45)), None);
    assert_eq!(decide_smart_change(false, &shutter(46)), Some(true));
    assert_eq!(decide_smart_change(false, &shutter(0x0100)), Some(true));
    assert_eq!(decide_smart_change(false, &shutter(44)), None);
    assert_eq!(decide_smart_change(true, &shutter(44)), Some(false));
    assert_eq!(decide_smart_change(true, &shutter(45)), None);
    assert_eq!(decide_smart_change(true, &shutter(46)), None);
}

#[test]
fn init_of_a_good_sensor() {
    let mut chip = Chip::new();
    chip.pages[1][0x05] = 0x1a;
    let config = Pmw3610Config { swap_xy: true, invert_y: true, ..Pmw3610Config::default() };
    assert_eq!(run_init(config, &mut chip), Progress::Finished(Ok(())));
    assert_eq!(
        chip.writes,
        vec![
            (0x3a, 0x5a),
            (0x41, 0xba),
            (0x2d, 0x00),
            (0x11, 0x0d),
            (0x1b, 0x04),
            (0x1c, 0x04),
            (0x1d, 0x0f),
            (0x7f, 0xff),
            (0x05, 0xba),
            (0x7f, 0x00),
            (0x41, 0xb5),
            (0x41, 0xba),
            (0x11, 0x0d),
            (0x41, 0xb5),
        ]
    );
    assert_eq!(chip.log[0], BusAction::Deselect);
    assert_eq!(chip.log[1], BusAction::Delay { ticks: 1000 });
    // The reset takes six actions; then comes its pause.
    assert_eq!(chip.log[8], BusAction::Delay { ticks: 10_000 });
    assert!(chip.log.contains(&BusAction::Delay { ticks: 300 }));
}

#[test]
fn init_with_resolution_and_force_awake() {
    let mut chip = Chip::new();
    chip.pages[1][0x05] = 0x41;
    let config = Pmw3610Config {
        res_cpi: 1200,
        invert_x: true,
        force_awake: true,
        ..Pmw3610Config::default()
    };
    assert_eq!(run_init(config, &mut chip), Progress::Finished(Ok(())));
    assert_eq!(chip.pages[1][0x05], 0x46);
    assert_eq!(chip.pages[0][0x11], 0xfd);
    assert_eq!(chip.pages[0][0x41], 0xb5);
    assert!(!chip.page1);
}

#[test]
fn init_of_a_foreign_chip() {
    let mut chip = Chip::new();
    chip.pages[0][0] = 0x42;
    assert_eq!(
        run_init(Pmw3610Config::default(), &mut chip),
        Progress::Finished(Err(Pmw3610Error::InvalidProductId(0x42)))
    );
    assert_eq!(chip.writes, vec![(0x3a, 0x5a)]);
}

#[test]
fn init_with_a_failed_self_test() {
    let mut chip = Chip::new();
    chip.observation = 0x0e;
    assert_eq!(
        run_init(Pmw3610Config::default(), &mut chip),
        Progress::Finished(Err(Pmw3610Error::InitFailed))
    );
    assert_eq!(chip.writes.len(), 3);
}

#[test]
fn init_with_an_unsupported_resolution() {
    for res_cpi in [1, 199, 3201, i16::MAX] {
        let mut chip = Chip::new();
        let config = Pmw3610Config { res_cpi, ..Pmw3610Config::default() };
        assert_eq!(
            run_init(config, &mut chip),
            Progress::Finished(Err(Pmw3610Error::InvalidCpi))
        );
        assert_eq!(chip.writes.last(), Some(&(0x41, 0xb5)));
        assert_eq!(chip.writes.len(), 11);
    }
}

#[test]
fn init_without_a_resolution() {
    for res_cpi in [0, -1, i16::MIN] {
        let mut chip = Chip::new();
        let config = Pmw3610Config { res_cpi, ..Pmw3610Config::default() };
        assert_eq!(run_init(config, &mut chip), Progress::Finished(Ok(())));
    }
}

#[test]
fn resolution_field() {
    for (cpi, field) in [(200u16, 1u8), (399, 1), (400, 2), (3200, 16)] {
        let mut chip = Chip::new();
        chip.pages[1][0x05] = 0xff;
        let mut sensor = Pmw3610::new(Pmw3610Config::default());
        let first = sensor.set_resolution(cpi);
        assert_eq!(chip.run(&mut sensor, first), Progress::Finished(Ok(())));
        assert_eq!(chip.pages[1][0x05], 0xe0 | field);
        assert_eq!(
            chip.writes,
            vec![
                (0x41, 0xba),
                (0x7f, 0xff),
                (0x05, 0xe0 | field),
                (0x7f, 0x00),
                (0x41, 0xb5)
            ]
        );
    }
}

#[test]
fn resolution_out_of_range() {
    let mut sensor = Pmw3610::new(Pmw3610Config::default());
    for cpi in [0, 199, 3201, u16::MAX] {
        assert_eq!(
            sensor.set_resolution(cpi),
            Progress::Finished(Err(Pmw3610Error::InvalidCpi))
        );
        assert!(sensor.step(BusEvent::Done).is_none());
    }
}

#[test]
fn force_awake_field() {
    for (enable, value) in [(true, 0xf7), (false, 0x07)] {
        let mut chip = Chip::new();
        chip.pages[0][0x11] = 0xa7;
        let mut sensor = Pmw3610::new(Pmw3610Config::default());
        let first = sensor.force_awake(enable);
        assert_eq!(chip.run(&mut sensor, first), Progress::Finished(Ok(())));
        assert_eq!(chip.writes, vec![(0x41, 0xba), (0x11, value), (0x41, 0xb5)]);
    }
}

#[test]
fn bus_error_leaves_the_sensor_selected() {
    let mut chip = Chip::new();
    // The third action of the reset clocks its bytes out.
    chip.fail_at = Some(4);
    assert_eq!(
        run_init(Pmw3610Config::default(), &mut chip),
        Progress::Finished(Err(Pmw3610Error::Spi))
    );
    assert_eq!(chip.log.len(), 5);
    assert_eq!(chip.log[2], BusAction::Select);
    assert_eq!(chip.log[4], BusAction::SendWrite { byte: 0xba, value: 0x5a });
}

#[test]
fn unexpected_events_are_refused() {
    let mut sensor = Pmw3610::new(Pmw3610Config::default());
    assert!(sensor.step(BusEvent::Done).is_none());
    sensor.force_awake(true);
    assert!(sensor.step(BusEvent::Failed).is_none());
    assert!(sensor.step(BusEvent::Received { frame: [0; 7] }).is_none());
    assert_eq!(
        sensor.step(BusEvent::Done),
        Some(Progress::Perform(BusAction::Delay { ticks: 1 }))
    );
}

fn read(sensor: &mut Pmw3610, chip: &mut Chip) -> Progress {
    let first = sensor.read_motion();
    chip.run(sensor, first)
}

#[test]
fn reading_motion() {
    let mut chip = Chip::new();
    let mut sensor = Pmw3610::new(Pmw3610Config::default());
    assert_eq!(read(&mut sensor, &mut chip), Progress::Moved(Ok(MotionData { dx: 0, dy: 0 })));
    chip.burst = [0x80, 5, 0xfe, 0x0f, 0, 0xff, 0xff];
    assert_eq!(read(&mut sensor, &mut chip), Progress::Moved(Ok(MotionData { dx: 5, dy: -2 })));
    assert!(chip.log.contains(&BusAction::Receive { len: 4 }));
    assert!(chip.writes.is_empty());
    chip.fail_at = Some(chip.log.len() + 4);
    assert_eq!(read(&mut sensor, &mut chip), Progress::Moved(Err(Pmw3610Error::Spi)));
}

#[test]
fn smart_mode_is_switched_with_the_surface() {
    let mut chip = Chip::new();
    let mut sensor =
        Pmw3610::new(Pmw3610Config { smart_mode: true, ..Pmw3610Config::default() });
    let moved = Progress::Moved(Ok(MotionData { dx: 1, dy: 2 }));
    chip.burst = [0x80, 1, 2, 0, 0, 0, 46];
    assert_eq!(read(&mut sensor, &mut chip), moved);
    assert!(chip.log.contains(&BusAction::Receive { len: 7 }));
    assert_eq!(chip.writes, vec![(0x41, 0xba), (0x32, 0x80), (0x41, 0xb5)]);
    // The flag is raised: the same surface changes nothing.
    chip.writes.clear();
    assert_eq!(read(&mut sensor, &mut chip), moved);
    assert!(chip.writes.is_empty());
    chip.burst[6] = 44;
    assert_eq!(read(&mut sensor, &mut chip), moved);
    assert_eq!(chip.writes, vec![(0x41, 0xba), (0x32, 0x00), (0x41, 0xb5)]);
}

#[test]
fn failed_switch_is_tried_again() {
    let mut chip = Chip::new();
    let mut sensor =
        Pmw3610::new(Pmw3610Config { smart_mode: true, ..Pmw3610Config::default() });
    chip.burst = [0x80, 1, 2, 0, 0, 1, 0];
    // Eight actions for the burst, then the first write of the switch.
    chip.fail_at = Some(10);
    assert_eq!(read(&mut sensor, &mut chip), Progress::Moved(Err(Pmw3610Error::Spi)));
    chip.fail_at = None;
    chip.writes.clear();
    read(&mut sensor, &mut chip);
    assert_eq!(chip.writes[1], (0x32, 0x80));
}

#[test]
fn no_motion_no_switch() {
    let mut chip = Chip::new();
    let mut sensor =
        Pmw3610::new(Pmw3610Config { smart_mode: true, ..Pmw3610Config::default() });
    chip.burst = [0x00, 1, 2, 0, 0, 1, 0];
    assert_eq!(read(&mut sensor, &mut chip), Progress::Moved(Ok(MotionData { dx: 0, dy: 0 })));
    assert!(chip.writes.is_empty());
}
