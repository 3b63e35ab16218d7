//! Scripts of register operations, and sessions that carry one out.
//!
//! A script is a list of instructions whose only link from one to a later one is
//! the register value that was read last. A session walks a script and asks for
//! one bus action at a time.

use super::bus::{BusAction, BusEvent, Transfer};
use super::registers::{BURST_DATA_LEN_SMART, OBSERVATION1_INIT_MASK, PRODUCT_ID_PMW3610};
use super::types::Pmw3610Error;
use vstd::prelude::*;

verus! {

/// What a register value is tested for once it has been read.
#[derive(Clone, Copy, Debug, PartialEq, Eq, Structural)]
pub enum Check {
    /// Any value will do.
    Nothing,
    /// The value is the product ID of the PMW3610.
    ProductId,
    /// The low four bits of the value are all set.
    Observation1,
}

impl Check {
    /// The error that a register value gives rise to, or `None` if it passes.
    pub open spec fn verdict(self, value: u8) -> Option<Pmw3610Error> {
        match self {
            Check::Nothing => None,
            Check::ProductId => if value == PRODUCT_ID_PMW3610 {
                None
            } else {
                Some(Pmw3610Error::InvalidProductId(value))
            },
            Check::Observation1 => if value & OBSERVATION1_INIT_MASK == OBSERVATION1_INIT_MASK {
                None
            } else {
                Some(Pmw3610Error::InitFailed)
            },
        }
    }

    /// Tests a register value.
    pub fn test(self, value: u8) -> (error: Option<Pmw3610Error>)
        ensures
            error == self.verdict(value),
    {
        match self {
            Check::Nothing => None,
            Check::ProductId => if value != PRODUCT_ID_PMW3610 {
                Some(Pmw3610Error::InvalidProductId(value))
            } else {
                None
            },
            Check::Observation1 => if (value & OBSERVATION1_INIT_MASK) != OBSERVATION1_INIT_MASK {
                Some(Pmw3610Error::InitFailed)
            } else {
                None
            },
        }
    }
}

/// One instruction of a script.
#[derive(Clone, Copy, Debug, PartialEq, Eq, Structural)]
pub enum Instr {
    /// Drive the chip-select line high.
    Release,
    /// Wait for a number of clock ticks.
    Wait { ticks: u64 },
    /// Write a register.
    Write { addr: u8, value: u8 },
    /// Write the value that was read last to a register, with the bits of `clear`
    /// cleared and then those of `set` set.
    WriteBack { addr: u8, clear: u8, set: u8 },
    /// Read a register and test its value.
    Read { addr: u8, check: Check },
    /// Read a burst of `len` bytes.
    Burst { addr: u8, len: usize },
    /// Give up.
    Fail { error: Pmw3610Error },
}

/// The value that `WriteBack` writes.
pub open spec fn written_back(latch: u8, clear: u8, set: u8) -> u8 {
    (latch & !clear) | set
}

impl Instr {
    /// The bus actions that carry out the instruction when `latch` is the register
    /// value that was read last.
    pub open spec fn steps(self, latch: u8) -> Seq<BusAction> {
        match self {
            Instr::Release => seq![BusAction::Deselect],
            Instr::Wait { ticks } => seq![BusAction::Delay { ticks }],
            Instr::Write { addr, value } => (Transfer::WriteReg { addr, value }).steps(),
            Instr::WriteBack { addr, clear, set } => (Transfer::WriteReg {
                addr,
                value: written_back(latch, clear, set),
            }).steps(),
            Instr::Read { addr, .. } => (Transfer::ReadReg { addr }).steps(),
            Instr::Burst { addr, len } => (Transfer::ReadBurst { addr, len }).steps(),
            Instr::Fail { .. } => seq![],
        }
    }

    /// The bus action at position `step` of the instruction, or `None` past its end.
    pub fn action(self, latch: u8, step: usize) -> (action: Option<BusAction>)
        ensures
            action == if step < self.steps(latch).len() {
                Some(self.steps(latch)[step as int])
            } else {
                None
            },
    {
        match self {
            Instr::Release => if step == 0 {
                Some(BusAction::Deselect)
            } else {
                None
            },
            Instr::Wait { ticks } => if step == 0 {
                Some(BusAction::Delay { ticks })
            } else {
                None
            },
            Instr::Write { addr, value } => (Transfer::WriteReg { addr, value }).action(step),
            Instr::WriteBack { addr, clear, set } => (Transfer::WriteReg {
                addr,
                value: (latch & !clear) | set,
            }).action(step),
            Instr::Read { addr, .. } => (Transfer::ReadReg { addr }).action(step),
            Instr::Burst { addr, len } => (Transfer::ReadBurst { addr, len }).action(step),
            Instr::Fail { .. } => None,
        }
    }

    /// The error with which the instruction ends the script once its actions are
    /// done, or `None` if the script goes on.
    pub open spec fn verdict(self, latch: u8) -> Option<Pmw3610Error> {
        match self {
            Instr::Read { check, .. } => check.verdict(latch),
            _ => None,
        }
    }
}

/// Where a session stands.
#[derive(Clone, Copy, Debug, PartialEq, Eq)]
pub enum SessionStatus {
    /// The host is to perform this action.
    Perform(BusAction),
    /// The script is over.
    Over(Result<(), Pmw3610Error>),
}

/// The state of a session, as a mathematical value.
pub ghost struct SessionState {
    /// The script.
    pub script: Seq<Instr>,
    /// The instruction under way.
    pub pc: int,
    /// The action of that instruction that is under way.
    pub step: int,
    /// The register value that was read last.
    pub latch: u8,
    /// The bytes that were received last.
    pub frame: Seq<u8>,
    /// The error that ended the script early.
    pub error: Option<Pmw3610Error>,
}

impl SessionState {
    /// The state in which a script begins.
    pub open spec fn start(script: Seq<Instr>) -> SessionState {
        SessionState {
            script,
            pc: 0,
            step: 0,
            latch: 0,
            frame: Seq::new(BURST_DATA_LEN_SMART as nat, |i: int| 0u8),
            error: None,
        }
    }

    /// The positions lie within the script.
    pub open spec fn wf(self) -> bool {
        &&& 0 <= self.pc <= self.script.len()
        &&& 0 <= self.step
        &&& self.step == 0 || (self.pc < self.script.len() && self.step
            < self.script[self.pc].steps(self.latch).len())
        &&& self.frame.len() == BURST_DATA_LEN_SMART
    }

    /// The action under way, or how the script ended.
    pub open spec fn status(self) -> SessionStatus {
        if self.error is Some {
            SessionStatus::Over(Err(self.error->0))
        } else if self.pc == self.script.len() {
            SessionStatus::Over(Ok(()))
        } else {
            match self.script[self.pc] {
                Instr::Fail { error } => SessionStatus::Over(Err(error)),
                instr => SessionStatus::Perform(instr.steps(self.latch)[self.step]),
            }
        }
    }

    /// Whether `event` answers the action under way.
    pub open spec fn awaits(self, event: BusEvent) -> bool {
        self.status() matches SessionStatus::Perform(action) && action.answered_by(event)
    }

    /// The state with received bytes taken in.
    pub open spec fn take_in(self, event: BusEvent) -> SessionState {
        match event {
            BusEvent::Received { frame } => SessionState {
                latch: frame@[0],
                frame: frame@,
                ..self
            },
            _ => self,
        }
    }

    /// The state with the action under way done: the next action of the
    /// instruction, or else its verdict and the next instruction.
    pub open spec fn advance(self) -> SessionState {
        let instr = self.script[self.pc];
        if self.step + 1 < instr.steps(self.latch).len() {
            SessionState { step: self.step + 1, ..self }
        } else {
            SessionState {
                pc: self.pc + 1,
                step: 0,
                error: instr.verdict(self.latch),
                ..self
            }
        }
    }

    /// The state after `event`. An error on the bus ends the script at once.
    pub open spec fn next(self, event: BusEvent) -> SessionState {
        match event {
            BusEvent::Failed => SessionState { error: Some(Pmw3610Error::Spi), ..self },
            _ => self.take_in(event).advance(),
        }
    }
}

/// A script being carried out.
#[derive(Debug)]
pub struct Session {
    script: Vec<Instr>,
    pc: usize,
    step: usize,
    latch: u8,
    frame: [u8; BURST_DATA_LEN_SMART],
    error: Option<Pmw3610Error>,
}

impl View for Session {
    type V = SessionState;

    closed spec fn view(&self) -> SessionState {
        SessionState {
            script: self.script@,
            pc: self.pc as int,
            step: self.step as int,
            latch: self.latch,
            frame: self.frame@,
            error: self.error,
        }
    }
}

impl Session {
    /// Begins a script.
    pub fn start(script: Vec<Instr>) -> (session: Session)
        ensures
            session@ == SessionState::start(script@),
            session@.wf(),
    {
        let session = Session {
            script,
            pc: 0,
            step: 0,
            latch: 0,
            frame: [0u8;BURST_DATA_LEN_SMART],
            error: None,
        };
        assert(session@.frame =~= SessionState::start(script@).frame);
        session
    }

    /// The action under way, or how the script ended.
    pub fn status(&self) -> (status: SessionStatus)
        requires
            self@.wf(),
        ensures
            status == self@.status(),
    {
        match self.error {
            Some(error) => SessionStatus::Over(Err(error)),
            None => if self.pc == self.script.len() {
                SessionStatus::Over(Ok(()))
            } else {
                match self.script[self.pc] {
                    Instr::Fail { error } => SessionStatus::Over(Err(error)),
                    instr => match instr.action(self.latch, self.step) {
                        Some(action) => SessionStatus::Perform(action),
                        None => {
                            proof {
                                assert(false);
                            }
                            SessionStatus::Over(Ok(()))
                        },
                    },
                }
            },
        }
    }

    /// The bytes that were received last, at the front of the frame.
    pub fn frame(&self) -> (frame: [u8; BURST_DATA_LEN_SMART])
        ensures
            frame@ == self@.frame,
    {
        self.frame
    }

    /// Takes in what came of the action under way. An event that does not answer
    /// it is refused and changes nothing.
    pub fn step(&mut self, event: BusEvent) -> (status: Option<SessionStatus>)
        requires
            old(self)@.wf(),
        ensures
            final(self)@.wf(),
            old(self)@.awaits(event) ==> final(self)@ == old(self)@.next(event) && status == Some(
                final(self)@.status(),
            ),
            !old(self)@.awaits(event) ==> final(self)@ == old(self)@ && status is None,
    {
        match self.status() {
            SessionStatus::Perform(action) => {
                if !action.is_answered_by(&event) {
                    return None;
                }
            },
            SessionStatus::Over(_) => {
                return None;
            },
        }
        match event {
            BusEvent::Failed => {
                self.error = Some(Pmw3610Error::Spi);
                return Some(self.status());
            },
            BusEvent::Received { frame } => {
                self.latch = frame[0];
                self.frame = frame;
            },
            BusEvent::Done => {},
        }
        let instr = self.script[self.pc];
        match instr.action(self.latch, self.step + 1) {
            Some(_) => {
                self.step = self.step + 1;
            },
            None => {
                assert(self.pc < self.script.len());
                self.pc = self.pc + 1;
                self.step = 0;
                self.error = match instr {
                    Instr::Read { check, .. } => check.test(self.latch),
                    _ => None,
                };
            },
        }
        Some(self.status())
    }
}

} // verus!
