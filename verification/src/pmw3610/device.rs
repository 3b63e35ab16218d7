//! The sensor as an input device: polling, initialisation with retries, and the
//! events that come of movement.

use super::bus::{BusAction, BusEvent};
use super::procedures::{burst_script, init_script};
use super::sensor::{PinReading, Pmw3610, Progress, SensorState, Task};
use super::types::{MotionData, Pmw3610Config, Pmw3610Error};
use crate::clock::{
    duration_from_micros, duration_from_millis, duration_since, now_not_before, TICKS_PER_MILLI,
};
use crate::event::{planar, planar_motion, AxisEvent};
use vstd::prelude::*;

verus! {

/// How often initialisation is tried before the device is given up.
pub const MAX_INIT_RETRIES: u8 = 3;

/// The pause after a failed initialisation.
pub const INIT_RETRY_DELAY_MS: u64 = 100;

/// The pause between two looks at the sensor, unless another is asked for.
pub const DEFAULT_POLL_INTERVAL_US: u64 = 500;

/// The time without an event after which a device at rest emits one.
pub const HEARTBEAT_INTERVAL_MS: u64 = 50;

/// Initialization state for the device
#[derive(Debug, Clone, Copy, PartialEq, Eq, Structural)]
pub enum InitState {
    Pending,
    /// Under way, after this many failed attempts.
    Initializing(u8),
    Ready,
    Failed,
}

/// What a device that reads an event waits for.
#[derive(Debug, Clone, Copy, PartialEq, Eq, Structural)]
pub enum Phase {
    /// Nothing: no event is being read.
    Idle,
    /// The poll interval to pass.
    Polling,
    /// The sensor to be initialised.
    Initializing,
    /// The pause after a failed initialisation to pass.
    RetryPause,
    /// The reading of the motion pin. With `need_heartbeat` an event is due even
    /// if nothing moved.
    Sampling { need_heartbeat: bool },
    /// The sensor to be read. With `need_heartbeat` an event is due even if nothing
    /// moved.
    Reading { need_heartbeat: bool },
}

/// What the host is to do.
#[derive(Debug, Clone, Copy)]
pub enum DeviceAction {
    /// Wait for a number of clock ticks.
    Sleep { ticks: u64 },
    /// Perform a bus action.
    Bus(BusAction),
    /// Read the motion pin.
    SamplePin,
    /// Deliver this joystick event: the reading of an event is over.
    Emit([AxisEvent; 3]),
}

/// What came of it.
#[derive(Debug, Clone, Copy)]
pub enum DeviceEvent {
    /// The time has passed.
    Elapsed,
    /// What came of the bus action.
    Bus(BusEvent),
    /// What the motion pin reads as.
    Pin(PinReading),
}

/// The state of a device, as a mathematical value.
pub ghost struct DeviceState {
    pub sensor: SensorState,
    pub init_state: InitState,
    /// The poll interval, in ticks.
    pub poll_interval: u64,
    /// When the last event was emitted, in ticks.
    pub last_event_time: Option<u64>,
    /// The heartbeat interval, in ticks.
    pub heartbeat_interval: u64,
    pub phase: Phase,
}

impl DeviceState {
    /// A new device.
    pub open spec fn fresh(config: Pmw3610Config, poll_interval: u64) -> DeviceState {
        DeviceState {
            sensor: SensorState {
                config,
                smart_flag: false,
                task: Task::Idle,
                session: super::script::SessionState::start(seq![]),
            },
            init_state: InitState::Pending,
            poll_interval,
            last_event_time: None,
            heartbeat_interval: (HEARTBEAT_INTERVAL_MS * TICKS_PER_MILLI) as u64,
            phase: Phase::Idle,
        }
    }

    /// The retry count is in range, and the phase goes with what the sensor is
    /// busy with and with the initialisation state.
    pub open spec fn wf(self) -> bool {
        &&& self.sensor.wf()
        &&& self.init_state matches InitState::Initializing(n) ==> n < MAX_INIT_RETRIES
        &&& match self.phase {
            Phase::Initializing => self.init_state is Initializing && self.sensor.task is Command,
            Phase::Sampling { .. } => self.init_state is Ready,
            Phase::Reading { .. } => self.init_state is Ready && (self.sensor.task is Burst
                || self.sensor.task is SmartSwitch),
            _ => true,
        }
    }

    /// No event lies in the future of `now`.
    pub open spec fn not_after(self, now: u64) -> bool {
        self.last_event_time matches Some(last) ==> last <= now
    }

    /// Whether a heartbeat is due: an event has been emitted, and the last one is
    /// at least a heartbeat interval old.
    pub open spec fn heartbeat_due(self, now: u64) -> bool {
        self.last_event_time matches Some(last) && now - last >= self.heartbeat_interval
    }

    /// Whether `event` answers what the device waits for.
    pub open spec fn awaits(self, event: DeviceEvent) -> bool {
        match (self.phase, event) {
            (Phase::Polling, DeviceEvent::Elapsed) => true,
            (Phase::RetryPause, DeviceEvent::Elapsed) => true,
            (Phase::Sampling { .. }, DeviceEvent::Pin(_)) => true,
            (Phase::Initializing, DeviceEvent::Bus(bus)) => self.sensor.awaits(bus),
            (Phase::Reading { .. }, DeviceEvent::Bus(bus)) => self.sensor.awaits(bus),
            _ => false,
        }
    }

    /// Wait for the poll interval.
    pub open spec fn poll(self) -> (DeviceState, DeviceAction) {
        (
            DeviceState { phase: Phase::Polling, ..self },
            DeviceAction::Sleep { ticks: self.poll_interval },
        )
    }

    /// Look at the motion pin.
    pub open spec fn sample(self, now: u64) -> (DeviceState, DeviceAction) {
        (
            DeviceState {
                phase: Phase::Sampling { need_heartbeat: self.heartbeat_due(now) },
                ..self
            },
            DeviceAction::SamplePin,
        )
    }

    /// Deliver a movement.
    pub open spec fn emit(self, motion: MotionData, now: u64) -> (DeviceState, DeviceAction) {
        (
            DeviceState { phase: Phase::Idle, last_event_time: Some(now), ..self },
            DeviceAction::Emit(planar(motion.dx, motion.dy)),
        )
    }

    /// Initialise the sensor, after `failures` failed attempts.
    pub open spec fn attempt_init(self, failures: u8) -> (DeviceState, DeviceAction) {
        (
            DeviceState {
                sensor: self.sensor.begin(Task::Command, init_script(self.sensor.config)),
                init_state: InitState::Initializing(failures),
                phase: Phase::Initializing,
                ..self
            },
            DeviceAction::Bus(BusAction::Deselect),
        )
    }

    /// What follows the poll interval.
    pub open spec fn after_poll(self, now: u64) -> (DeviceState, DeviceAction) {
        match self.init_state {
            InitState::Ready => self.sample(now),
            InitState::Failed => self.poll(),
            InitState::Pending => self.attempt_init(0),
            InitState::Initializing(failures) => self.attempt_init(failures),
        }
    }

    /// What follows an attempt to initialise the sensor: the sensor is ready, or
    /// it is tried again after a pause, or it is given up.
    pub open spec fn after_init(self, result: Result<(), Pmw3610Error>, now: u64) -> (
        DeviceState,
        DeviceAction,
    ) {
        let failures = self.init_state->Initializing_0;
        if result is Ok {
            DeviceState { init_state: InitState::Ready, ..self }.sample(now)
        } else if failures + 1 >= MAX_INIT_RETRIES {
            DeviceState { init_state: InitState::Failed, ..self }.poll()
        } else {
            (
                DeviceState {
                    init_state: InitState::Initializing((failures + 1) as u8),
                    phase: Phase::RetryPause,
                    ..self
                },
                DeviceAction::Sleep { ticks: (INIT_RETRY_DELAY_MS * TICKS_PER_MILLI) as u64 },
            )
        }
    }

    /// What follows the reading of the motion pin.
    pub open spec fn after_pin(self, reading: PinReading, need_heartbeat: bool, now: u64) -> (
        DeviceState,
        DeviceAction,
    ) {
        if !(reading is High) {
            (
                DeviceState {
                    sensor: self.sensor.begin(
                        Task::Burst,
                        burst_script(self.sensor.burst_len()),
                    ),
                    phase: Phase::Reading { need_heartbeat },
                    ..self
                },
                DeviceAction::Bus(BusAction::Select),
            )
        } else if need_heartbeat {
            self.emit(MotionData { dx: 0, dy: 0 }, now)
        } else {
            self.poll()
        }
    }

    /// Whether an event is due even if nothing moved.
    pub open spec fn heartbeat_pending(self) -> bool {
        match self.phase {
            Phase::Sampling { need_heartbeat } => need_heartbeat,
            Phase::Reading { need_heartbeat } => need_heartbeat,
            _ => false,
        }
    }

    /// What follows the reading of the sensor: movement is delivered, and so is the
    /// lack of it where a heartbeat is due; else, or after an error, the device polls
    /// on.
    pub open spec fn after_reading(self, result: Result<MotionData, Pmw3610Error>, now: u64) -> (
        DeviceState,
        DeviceAction,
    ) {
        match result {
            Ok(motion) => if motion.dx != 0 || motion.dy != 0 || self.heartbeat_pending() {
                self.emit(motion, now)
            } else {
                self.poll()
            },
            Err(_) => self.poll(),
        }
    }

    /// What follows `event`.
    pub open spec fn next(self, event: DeviceEvent, now: u64) -> (DeviceState, DeviceAction) {
        match (self.phase, event) {
            (Phase::Polling, _) => self.after_poll(now),
            (Phase::Sampling { need_heartbeat }, DeviceEvent::Pin(reading)) => self.after_pin(
                reading,
                need_heartbeat,
                now,
            ),
            (_, DeviceEvent::Bus(bus)) => {
                let (sensor, progress) = self.sensor.next(bus);
                let stepped = DeviceState { sensor, ..self };
                match progress {
                    Progress::Perform(action) => (stepped, DeviceAction::Bus(action)),
                    Progress::Finished(result) => stepped.after_init(result, now),
                    Progress::Moved(result) => stepped.after_reading(result, now),
                }
            },
            _ => self.poll(),
        }
    }
}

/// PMW3610 as an input device
///
/// This device emits joystick events with relative X/Y movement.
#[derive(Debug)]
pub struct Pmw3610Device {
    sensor: Pmw3610,
    init_state: InitState,
    poll_interval: u64,
    /// Last time an event was emitted (for heartbeat/timeout support)
    last_event_time: Option<u64>,
    /// Heartbeat interval - emit zero-motion events periodically for timeout checking
    heartbeat_interval: u64,
    phase: Phase,
}

impl View for Pmw3610Device {
    type V = DeviceState;

    closed spec fn view(&self) -> DeviceState {
        DeviceState {
            sensor: self.sensor@,
            init_state: self.init_state,
            poll_interval: self.poll_interval,
            last_event_time: self.last_event_time,
            heartbeat_interval: self.heartbeat_interval,
            phase: self.phase,
        }
    }
}

impl Pmw3610Device {
    /// Create a new PMW3610 device
    pub fn new(config: Pmw3610Config) -> (device: Self)
        ensures
            device@ == DeviceState::fresh(config, DEFAULT_POLL_INTERVAL_US),
            device@.wf(),
    {
        Self::with_poll_interval(config, DEFAULT_POLL_INTERVAL_US)
    }

    /// Create a new PMW3610 device with custom poll interval
    pub fn with_poll_interval(config: Pmw3610Config, poll_interval_us: u64) -> (device: Self)
        requires
            poll_interval_us < u64::MAX,
        ensures
            device@ == DeviceState::fresh(config, poll_interval_us),
            device@.wf(),
    {
        Pmw3610Device {
            sensor: Pmw3610::new(config),
            init_state: InitState::Pending,
            poll_interval: duration_from_micros(poll_interval_us),
            last_event_time: None,
            heartbeat_interval: duration_from_millis(HEARTBEAT_INTERVAL_MS),
            phase: Phase::Idle,
        }
    }

    /// Begins to read an event. The reading of another one is abandoned.
    pub fn read_event(&mut self) -> (action: DeviceAction)
        requires
            old(self)@.wf(),
        ensures
            (final(self)@, action) == old(self)@.poll(),
            final(self)@.wf(),
    {
        self.poll()
    }

    /// Takes in what came of the action under way, at the present time. An event
    /// that does not answer it is refused and changes nothing.
    pub fn step(&mut self, event: DeviceEvent) -> (action: Option<DeviceAction>)
        requires
            old(self)@.wf(),
        ensures
            final(self)@.wf(),
            old(self)@.awaits(event) ==> exists|now: u64|
                {
                    &&& old(self)@.not_after(now)
                    &&& final(self)@ == (#[trigger] old(self)@.next(event, now)).0
                    &&& action == Some(old(self)@.next(event, now).1)
                },
            !old(self)@.awaits(event) ==> final(self)@ == old(self)@ && action is None,
    {
        let now: u64 = now_not_before(self.last_event_time);
        self.step_at(event, now)
    }

    /// Takes in what came of the action under way, at the time `now`. An event
    /// that does not answer it is refused and changes nothing.
    pub fn step_at(&mut self, event: DeviceEvent, now: u64) -> (action: Option<DeviceAction>)
        requires
            old(self)@.wf(),
            old(self)@.not_after(now),
        ensures
            final(self)@.wf(),
            old(self)@.awaits(event) ==> final(self)@ == old(self)@.next(event, now).0 && action
                == Some(old(self)@.next(event, now).1),
            !old(self)@.awaits(event) ==> final(self)@ == old(self)@ && action is None,
    {
        match (self.phase, event) {
            (Phase::Polling, DeviceEvent::Elapsed) => Some(self.try_init(now)),
            (Phase::RetryPause, DeviceEvent::Elapsed) => Some(self.poll()),
            (Phase::Sampling { need_heartbeat }, DeviceEvent::Pin(reading)) => {
                if self.sensor.motion_pending(reading) {
                    self.sensor.read_motion();
                    self.phase = Phase::Reading { need_heartbeat };
                    Some(DeviceAction::Bus(BusAction::Select))
                } else if need_heartbeat {
                    Some(self.emit(MotionData { dx: 0, dy: 0 }, now))
                } else {
                    Some(self.poll())
                }
            },
            (Phase::Initializing, DeviceEvent::Bus(bus)) => self.step_sensor(bus, now),
            (Phase::Reading { .. }, DeviceEvent::Bus(bus)) => self.step_sensor(bus, now),
            _ => None,
        }
    }

    /// Hands a bus event to the sensor and goes on with what the sensor says.
    fn step_sensor(&mut self, event: BusEvent, now: u64) -> (action: Option<DeviceAction>)
        requires
            old(self)@.wf(),
            old(self)@.not_after(now),
            old(self)@.phase is Initializing || old(self)@.phase is Reading,
        ensures
            final(self)@.wf(),
            old(self)@.sensor.awaits(event) ==> (final(self)@, action->0) == old(self)@.next(
                DeviceEvent::Bus(event),
                now,
            ) && action is Some,
            !old(self)@.sensor.awaits(event) ==> final(self)@ == old(self)@ && action is None,
    {
        match self.sensor.step(event) {
            None => None,
            Some(Progress::Perform(action)) => Some(DeviceAction::Bus(action)),
            Some(Progress::Finished(result)) => Some(self.finish_init(result, now)),
            Some(Progress::Moved(result)) => {
                let need_heartbeat: bool = match self.phase {
                    Phase::Reading { need_heartbeat } => need_heartbeat,
                    _ => false,
                };
                match result {
                    Ok(motion) => if motion.dx != 0 || motion.dy != 0 || need_heartbeat {
                        Some(self.emit(motion, now))
                    } else {
                        Some(self.poll())
                    },
                    Err(_) => Some(self.poll()),
                }
            },
        }
    }

    /// Goes on after the poll interval: initialises the sensor if that is still to
    /// be done, else looks at the motion pin.
    fn try_init(&mut self, now: u64) -> (action: DeviceAction)
        requires
            old(self)@.wf(),
            old(self)@.not_after(now),
        ensures
            (final(self)@, action) == old(self)@.after_poll(now),
            final(self)@.wf(),
    {
        match self.init_state {
            InitState::Ready => {
                return self.sample(now);
            },
            InitState::Failed => {
                return self.poll();
            },
            InitState::Pending => {
                self.init_state = InitState::Initializing(0);
            },
            InitState::Initializing(_) => {},
        }
        self.sensor.init();
        self.phase = Phase::Initializing;
        DeviceAction::Bus(BusAction::Deselect)
    }

    /// Goes on after an attempt to initialise the sensor.
    fn finish_init(&mut self, result: Result<(), Pmw3610Error>, now: u64) -> (action: DeviceAction)
        requires
            old(self)@.sensor.wf(),
            old(self)@.not_after(now),
            old(self)@.init_state matches InitState::Initializing(n) && n < MAX_INIT_RETRIES,
        ensures
            (final(self)@, action) == old(self)@.after_init(result, now),
            final(self)@.wf(),
    {
        let retry_count: u8 = match self.init_state {
            InitState::Initializing(n) => n,
            _ => 0,
        };
        match result {
            Ok(()) => {
                self.init_state = InitState::Ready;
                self.sample(now)
            },
            Err(_) => {
                if retry_count + 1 >= MAX_INIT_RETRIES {
                    self.init_state = InitState::Failed;
                    self.poll()
                } else {
                    self.init_state = InitState::Initializing(retry_count + 1);
                    self.phase = Phase::RetryPause;
                    DeviceAction::Sleep { ticks: duration_from_millis(INIT_RETRY_DELAY_MS) }
                }
            },
        }
    }

    /// Waits for the poll interval.
    fn poll(&mut self) -> (action: DeviceAction)
        requires
            old(self)@.sensor.wf(),
            old(self)@.init_state matches InitState::Initializing(n) ==> n < MAX_INIT_RETRIES,
        ensures
            (final(self)@, action) == old(self)@.poll(),
            final(self)@.wf(),
    {
        self.phase = Phase::Polling;
        DeviceAction::Sleep { ticks: self.poll_interval }
    }

    /// Looks at the motion pin, with the heartbeat decided first.
    fn sample(&mut self, now: u64) -> (action: DeviceAction)
        requires
            old(self)@.sensor.wf(),
            old(self)@.init_state is Ready,
            old(self)@.not_after(now),
        ensures
            (final(self)@, action) == old(self)@.sample(now),
            final(self)@.wf(),
    {
        let need_heartbeat: bool = match self.last_event_time {
            Some(last_time) => duration_since(now, last_time) >= self.heartbeat_interval,
            None => false,
        };
        self.phase = Phase::Sampling { need_heartbeat };
        DeviceAction::SamplePin
    }

    /// Delivers a movement.
    fn emit(&mut self, motion: MotionData, now: u64) -> (action: DeviceAction)
        requires
            old(self)@.sensor.wf(),
            old(self)@.init_state is Ready,
        ensures
            (final(self)@, action) == old(self)@.emit(motion, now),
            final(self)@.wf(),
    {
        self.last_event_time = Some(now);
        self.phase = Phase::Idle;
        DeviceAction::Emit(planar_motion(motion.dx, motion.dy))
    }
}

} // verus!
