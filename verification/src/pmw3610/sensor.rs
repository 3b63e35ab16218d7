//! The sensor driver: which script runs, and what comes of it.

use super::bus::{BusAction, BusEvent};
use super::motion::{
    decide_smart_change, decode_motion, has_motion, in_range, motion_of, motion_reported,
    shutter_of, smart_change,
};
use super::procedures;
use super::procedures::{
    awake_script, burst_script, cpi_supported, init_script, resolution_script, smart_script,
};
use super::registers::{BURST_DATA_LEN_NORMAL, BURST_DATA_LEN_SMART};
use super::script::{Instr, Session, SessionState, SessionStatus};
use super::types::{MotionData, Pmw3610Config, Pmw3610Error};
use vstd::prelude::*;

verus! {

/// What the motion pin reads as. The pin is active low.
#[derive(Clone, Copy, Debug, PartialEq, Eq, Structural)]
pub enum PinReading {
    /// There is no motion pin.
    Absent,
    Low,
    High,
    /// Reading the pin failed.
    Unreadable,
}

/// What the driver is busy with.
#[derive(Clone, Copy, Debug, PartialEq, Eq, Structural)]
pub enum Task {
    /// Nothing.
    Idle,
    /// A script that configures the sensor.
    Command,
    /// The motion burst.
    Burst,
    /// The switch of smart mode that follows a burst with this movement. The smart
    /// flag takes on this value once the switch is done.
    SmartSwitch { motion: MotionData, smart_flag: bool },
}

/// How far the driver has come.
#[derive(Clone, Copy, Debug, PartialEq, Eq)]
pub enum Progress {
    /// The host is to perform this action.
    Perform(BusAction),
    /// A command is over.
    Finished(Result<(), Pmw3610Error>),
    /// A reading is over.
    Moved(Result<MotionData, Pmw3610Error>),
}

/// The state of the driver, as a mathematical value.
pub ghost struct SensorState {
    pub config: Pmw3610Config,
    /// Whether smart mode has been switched off for a dark surface.
    pub smart_flag: bool,
    pub task: Task,
    pub session: SessionState,
}

impl SensorState {
    /// A driver that is busy waits for an action, and the movement that it keeps is
    /// one that a burst can hold.
    pub open spec fn wf(self) -> bool {
        &&& self.session.wf()
        &&& self.task is Idle || self.session.status() is Perform
        &&& self.task matches Task::SmartSwitch { motion, .. } ==> in_range(motion)
    }

    /// The driver with a new script under way.
    pub open spec fn begin(self, task: Task, script: Seq<Instr>) -> SensorState {
        SensorState { task, session: SessionState::start(script), ..self }
    }

    /// The driver with nothing under way.
    pub open spec fn rest(self) -> SensorState {
        SensorState { task: Task::Idle, ..self }
    }

    /// The length of a motion burst.
    pub open spec fn burst_len(self) -> usize {
        if self.config.smart_mode {
            BURST_DATA_LEN_SMART
        } else {
            BURST_DATA_LEN_NORMAL
        }
    }

    /// Whether `event` answers the action under way.
    pub open spec fn awaits(self, event: BusEvent) -> bool {
        !(self.task is Idle) && self.session.awaits(event)
    }

    /// What follows a burst: nothing, where it reports no movement or smart mode
    /// need not change; else the switch of smart mode.
    pub open spec fn after_burst(self) -> (SensorState, Progress) {
        let frame = self.session.frame;
        let change = smart_change(self.smart_flag, shutter_of(frame));
        if !motion_reported(frame) {
            (self.rest(), Progress::Moved(Ok(MotionData { dx: 0, dy: 0 })))
        } else if self.config.smart_mode && change is Some {
            let switching = self.begin(
                Task::SmartSwitch { motion: motion_of(frame), smart_flag: change->0 },
                smart_script(change->0),
            );
            (switching, Progress::Perform(BusAction::Select))
        } else {
            (self.rest(), Progress::Moved(Ok(motion_of(frame))))
        }
    }

    /// What follows a script that is over.
    pub open spec fn after_script(self, result: Result<(), Pmw3610Error>) -> (
        SensorState,
        Progress,
    ) {
        match (self.task, result) {
            (Task::Burst, Ok(_)) => self.after_burst(),
            (Task::SmartSwitch { motion, smart_flag }, Ok(_)) => (
                SensorState { smart_flag, ..self.rest() },
                Progress::Moved(Ok(motion)),
            ),
            (Task::Burst, Err(error)) => (self.rest(), Progress::Moved(Err(error))),
            (Task::SmartSwitch { .. }, Err(error)) => (self.rest(), Progress::Moved(Err(error))),
            _ => (self.rest(), Progress::Finished(result)),
        }
    }

    /// What follows `event`.
    pub open spec fn next(self, event: BusEvent) -> (SensorState, Progress) {
        let stepped = SensorState { session: self.session.next(event), ..self };
        match stepped.session.status() {
            SessionStatus::Perform(action) => (stepped, Progress::Perform(action)),
            SessionStatus::Over(result) => stepped.after_script(result),
        }
    }
}

/// PMW3610 driver
#[derive(Debug)]
pub struct Pmw3610 {
    config: Pmw3610Config,
    smart_flag: bool,
    task: Task,
    session: Session,
}

impl View for Pmw3610 {
    type V = SensorState;

    closed spec fn view(&self) -> SensorState {
        SensorState {
            config: self.config,
            smart_flag: self.smart_flag,
            task: self.task,
            session: self.session@,
        }
    }
}

impl Pmw3610 {
    /// Create a new PMW3610 driver instance
    pub fn new(config: Pmw3610Config) -> (sensor: Self)
        ensures
            sensor@ == (SensorState {
                config,
                smart_flag: false,
                task: Task::Idle,
                session: SessionState::start(seq![]),
            }),
            sensor@.wf(),
    {
        let script: Vec<Instr> = Vec::new();
        let sensor = Pmw3610 {
            config,
            smart_flag: false,
            task: Task::Idle,
            session: Session::start(script),
        };
        assert(script@ =~= seq![]);
        sensor
    }

    /// Check if motion is pending (motion GPIO is active low). Without a pin, or
    /// with one that cannot be read, motion may be pending at any time.
    pub fn motion_pending(&self, reading: PinReading) -> (pending: bool)
        ensures
            pending == !(reading is High),
    {
        match reading {
            PinReading::Low => true,
            PinReading::High => false,
            PinReading::Unreadable => true,
            PinReading::Absent => true,
        }
    }

    /// Begins to set the sensor resolution in CPI (200-3200, step 200). Whatever
    /// was under way is abandoned.
    pub fn set_resolution(&mut self, cpi: u16) -> (progress: Progress)
        ensures
            old(self)@.wf() ==> final(self)@.wf(),
            cpi_supported(cpi as int) ==> {
                &&& final(self)@ == old(self)@.begin(Task::Command, resolution_script(cpi))
                &&& final(self)@.wf()
                &&& progress == Progress::Perform(BusAction::Select)
            },
            !cpi_supported(cpi as int) ==> {
                &&& final(self)@ == old(self)@.rest()
                &&& progress == Progress::Finished(Err(Pmw3610Error::InvalidCpi))
            },
    {
        let mut script: Vec<Instr> = Vec::new();
        match procedures::set_resolution(&mut script, cpi) {
            Err(error) => {
                self.task = Task::Idle;
                Progress::Finished(Err(error))
            },
            Ok(()) => {
                assert(script@ =~= resolution_script(cpi));
                self.task = Task::Command;
                self.session = Session::start(script);
                Progress::Perform(BusAction::Select)
            },
        }
    }

    /// Begins to set force awake mode. Whatever was under way is abandoned.
    pub fn force_awake(&mut self, enable: bool) -> (progress: Progress)
        ensures
            final(self)@ == old(self)@.begin(Task::Command, awake_script(enable)),
            final(self)@.wf(),
            progress == Progress::Perform(BusAction::Select),
    {
        let mut script: Vec<Instr> = Vec::new();
        procedures::force_awake(&mut script, enable);
        assert(script@ =~= awake_script(enable));
        self.task = Task::Command;
        self.session = Session::start(script);
        Progress::Perform(BusAction::Select)
    }

    /// Begins to initialize the sensor. Whatever was under way is abandoned.
    pub fn init(&mut self) -> (progress: Progress)
        ensures
            final(self)@ == old(self)@.begin(Task::Command, init_script(old(self)@.config)),
            final(self)@.wf(),
            progress == Progress::Perform(BusAction::Deselect),
    {
        self.session = Session::start(procedures::init(&self.config));
        self.task = Task::Command;
        Progress::Perform(BusAction::Deselect)
    }

    /// Begins to read motion data from the sensor. Whatever was under way is
    /// abandoned.
    pub fn read_motion(&mut self) -> (progress: Progress)
        ensures
            final(self)@ == old(self)@.begin(Task::Burst, burst_script(old(self)@.burst_len())),
            final(self)@.wf(),
            progress == Progress::Perform(BusAction::Select),
    {
        let burst_data_len: usize = if self.config.smart_mode {
            BURST_DATA_LEN_SMART
        } else {
            BURST_DATA_LEN_NORMAL
        };
        self.session = Session::start(procedures::read_burst(burst_data_len));
        self.task = Task::Burst;
        Progress::Perform(BusAction::Select)
    }

    /// Takes in what came of the action under way. An event that does not answer
    /// it is refused and changes nothing.
    pub fn step(&mut self, event: BusEvent) -> (progress: Option<Progress>)
        requires
            old(self)@.wf(),
        ensures
            final(self)@.wf(),
            old(self)@.awaits(event) ==> final(self)@ == old(self)@.next(event).0 && progress
                == Some(old(self)@.next(event).1),
            !old(self)@.awaits(event) ==> final(self)@ == old(self)@ && progress is None,
    {
        match self.task {
            Task::Idle => {
                return None;
            },
            _ => {},
        }
        match self.session.step(event) {
            None => None,
            Some(SessionStatus::Perform(action)) => Some(Progress::Perform(action)),
            Some(SessionStatus::Over(result)) => Some(self.finish(result)),
        }
    }

    /// Decides what follows a script that is over.
    fn finish(&mut self, result: Result<(), Pmw3610Error>) -> (progress: Progress)
        requires
            old(self)@.session.wf(),
        ensures
            (final(self)@, progress) == old(self)@.after_script(result),
            final(self)@.wf(),
    {
        let task = self.task;
        self.task = Task::Idle;
        match (task, result) {
            (Task::Burst, Ok(())) => {
                let frame = self.session.frame();
                if !has_motion(&frame) {
                    return Progress::Moved(Ok(MotionData::default()));
                }
                let motion = decode_motion(&frame);
                if self.config.smart_mode {
                    match decide_smart_change(self.smart_flag, &frame) {
                        Some(smart_flag) => {
                            self.session = Session::start(
                                procedures::switch_smart_mode(smart_flag),
                            );
                            self.task = Task::SmartSwitch { motion, smart_flag };
                            return Progress::Perform(BusAction::Select);
                        },
                        None => {},
                    }
                }
                Progress::Moved(Ok(motion))
            },
            (Task::SmartSwitch { motion, smart_flag }, Ok(())) => {
                self.smart_flag = smart_flag;
                Progress::Moved(Ok(motion))
            },
            (Task::Burst, Err(error)) => Progress::Moved(Err(error)),
            (Task::SmartSwitch { .. }, Err(error)) => Progress::Moved(Err(error)),
            _ => Progress::Finished(result),
        }
    }
}

/// The smart flag changes only once smart mode has been switched without an error.
/// The configuration never changes.
pub proof fn law_smart_flag_follows_switch(s: SensorState, event: BusEvent)
    requires
        s.wf(),
        s.awaits(event),
    ensures
        ({
            let (next, progress) = s.next(event);
            &&& next.config == s.config
            &&& next.smart_flag != s.smart_flag ==> {
                &&& s.task matches Task::SmartSwitch { motion, smart_flag } && smart_flag
                    == next.smart_flag && progress == Progress::Moved(Ok(motion))
            }
        }),
{
}

/// Without smart mode, or without reported movement, a burst is all that a reading
/// takes.
pub proof fn law_plain_reading_is_one_burst(s: SensorState)
    requires
        !s.config.smart_mode || !motion_reported(s.session.frame),
    ensures
        s.after_burst().1 == Progress::Moved(
            Ok(
                if motion_reported(s.session.frame) {
                    motion_of(s.session.frame)
                } else {
                    MotionData { dx: 0, dy: 0 }
                },
            ),
        ),
        s.after_burst().0 == s.rest(),
{
}

/// An error on the bus ends whatever is under way with the error for the bus.
pub proof fn law_bus_error_is_reported(s: SensorState)
    requires
        s.wf(),
        s.awaits(BusEvent::Failed),
    ensures
        s.next(BusEvent::Failed).0.task is Idle,
        s.next(BusEvent::Failed).0.smart_flag == s.smart_flag,
        s.next(BusEvent::Failed).1 == if s.task is Command {
            Progress::Finished(Err(Pmw3610Error::Spi))
        } else {
            Progress::Moved(Err(Pmw3610Error::Spi))
        },
{
}

/// Every movement that a reading comes to is one that twelve bits can hold.
pub proof fn law_movement_in_range(s: SensorState, event: BusEvent)
    requires
        s.wf(),
        s.awaits(event),
    ensures
        s.next(event).1 matches Progress::Moved(Ok(motion)) ==> in_range(motion),
{
}

} // verus!
