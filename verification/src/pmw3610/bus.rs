//! Register transfers on the sensor's bus, one primitive action at a time.

use super::registers::{
    BURST_DATA_LEN_SMART, SPI_ADDRESS_MASK, SPI_WRITE, T_BEXIT_US, T_NCS_SCLK_US, T_SCLK_NCS_WR_US,
    T_SRAD_US, T_SRX_US, T_SWX_US,
};
use crate::clock::duration_from_micros;
use vstd::prelude::*;

verus! {

/// A primitive action that the host performs.
#[derive(Clone, Copy, Debug, PartialEq, Eq, Structural)]
pub enum BusAction {
    /// Drive the chip-select line low. A failure of the line is ignored.
    Select,
    /// Drive the chip-select line high. A failure of the line is ignored.
    Deselect,
    /// Wait for a number of clock ticks.
    Delay { ticks: u64 },
    /// Spin for a few instructions.
    ShortDelay,
    /// Clock out the first byte of a read.
    SendAddress { byte: u8 },
    /// Clock out the two bytes of a write.
    SendWrite { byte: u8, value: u8 },
    /// Clock in this many bytes.
    Receive { len: usize },
}

/// What came of a bus action.
#[derive(Clone, Copy, Debug)]
pub enum BusEvent {
    /// The action was performed.
    Done,
    /// The bus reported an error while it clocked bytes.
    Failed,
    /// The bytes that were clocked in, at the front of the frame.
    Received { frame: [u8; BURST_DATA_LEN_SMART] },
}

impl BusAction {
    /// Whether `event` is something that performing this action can come to.
    pub open spec fn answered_by(self, event: BusEvent) -> bool {
        match self {
            BusAction::Receive { .. } => event is Received || event is Failed,
            BusAction::SendAddress { .. } | BusAction::SendWrite { .. } => event is Done
                || event is Failed,
            _ => event is Done,
        }
    }

    /// Tells whether `event` is something that performing this action can come to.
    pub fn is_answered_by(self, event: &BusEvent) -> (answered: bool)
        ensures
            answered == self.answered_by(*event),
    {
        match (self, event) {
            (BusAction::Receive { .. }, BusEvent::Done) => false,
            (BusAction::Receive { .. }, _) => true,
            (BusAction::SendAddress { .. }, BusEvent::Received { .. }) => false,
            (BusAction::SendAddress { .. }, _) => true,
            (BusAction::SendWrite { .. }, BusEvent::Received { .. }) => false,
            (BusAction::SendWrite { .. }, _) => true,
            (_, BusEvent::Done) => true,
            (_, _) => false,
        }
    }
}

/// A transfer to or from the sensor's registers.
#[derive(Clone, Copy, Debug, PartialEq, Eq, Structural)]
pub enum Transfer {
    /// Read one register.
    ReadReg { addr: u8 },
    /// Read `len` bytes in one go.
    ReadBurst { addr: u8, len: usize },
    /// Write one register.
    WriteReg { addr: u8, value: u8 },
}

impl Transfer {
    /// The actions that make up the transfer, in order.
    pub open spec fn steps(self) -> Seq<BusAction> {
        match self {
            Transfer::ReadReg { addr } => read_steps(addr, 1, T_SRX_US),
            Transfer::ReadBurst { addr, len } => read_steps(addr, len, T_BEXIT_US),
            Transfer::WriteReg { addr, value } => seq![
                BusAction::Select,
                BusAction::Delay { ticks: T_NCS_SCLK_US },
                BusAction::SendWrite { byte: addr | SPI_WRITE, value },
                BusAction::Delay { ticks: T_SCLK_NCS_WR_US },
                BusAction::Deselect,
                BusAction::Delay { ticks: T_SWX_US },
            ],
        }
    }

    /// The action at position `step` of the transfer, or `None` past its end.
    pub fn action(self, step: usize) -> (action: Option<BusAction>)
        ensures
            action == if step < self.steps().len() {
                Some(self.steps()[step as int])
            } else {
                None
            },
    {
        match self {
            Transfer::ReadReg { addr } => read_action(addr, 1, T_SRX_US, step),
            Transfer::ReadBurst { addr, len } => read_action(addr, len, T_BEXIT_US, step),
            Transfer::WriteReg { addr, value } => match step {
                0 => Some(BusAction::Select),
                1 => Some(BusAction::Delay { ticks: duration_from_micros(T_NCS_SCLK_US) }),
                2 => Some(BusAction::SendWrite { byte: addr | SPI_WRITE, value }),
                3 => Some(BusAction::Delay { ticks: duration_from_micros(T_SCLK_NCS_WR_US) }),
                4 => Some(BusAction::Deselect),
                5 => Some(BusAction::Delay { ticks: duration_from_micros(T_SWX_US) }),
                _ => None,
            },
        }
    }
}

/// The actions of a read of `len` bytes that ends with a pause of `exit_us`.
pub open spec fn read_steps(addr: u8, len: usize, exit_us: u64) -> Seq<BusAction> {
    seq![
        BusAction::Select,
        BusAction::Delay { ticks: T_NCS_SCLK_US },
        BusAction::SendAddress { byte: addr & SPI_ADDRESS_MASK },
        BusAction::Delay { ticks: T_SRAD_US },
        BusAction::Receive { len },
        BusAction::ShortDelay,
        BusAction::Deselect,
        BusAction::Delay { ticks: exit_us },
    ]
}

fn read_action(addr: u8, len: usize, exit_us: u64, step: usize) -> (action: Option<BusAction>)
    requires
        exit_us < u64::MAX,
    ensures
        action == if step < read_steps(addr, len, exit_us).len() {
            Some(read_steps(addr, len, exit_us)[step as int])
        } else {
            None
        },
{
    match step {
        0 => Some(BusAction::Select),
        1 => Some(BusAction::Delay { ticks: duration_from_micros(T_NCS_SCLK_US) }),
        2 => Some(BusAction::SendAddress { byte: addr & SPI_ADDRESS_MASK }),
        3 => Some(BusAction::Delay { ticks: duration_from_micros(T_SRAD_US) }),
        4 => Some(BusAction::Receive { len }),
        5 => Some(BusAction::ShortDelay),
        6 => Some(BusAction::Deselect),
        7 => Some(BusAction::Delay { ticks: duration_from_micros(exit_us) }),
        _ => None,
    }
}

} // verus!
