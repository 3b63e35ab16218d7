//! Register addresses, bit fields and timings of the PMW3610.

use vstd::prelude::*;

verus! {

// Page 0 registers.

pub const PMW3610_PROD_ID: u8 = 0x00;

pub const PMW3610_MOTION: u8 = 0x02;

pub const PMW3610_DELTA_X_L: u8 = 0x03;

pub const PMW3610_DELTA_Y_L: u8 = 0x04;

pub const PMW3610_DELTA_XY_H: u8 = 0x05;

pub const PMW3610_PERFORMANCE: u8 = 0x11;

pub const PMW3610_BURST_READ: u8 = 0x12;

pub const PMW3610_RUN_DOWNSHIFT: u8 = 0x1b;

pub const PMW3610_REST1_RATE: u8 = 0x1c;

pub const PMW3610_REST1_DOWNSHIFT: u8 = 0x1d;

pub const PMW3610_OBSERVATION1: u8 = 0x2d;

pub const PMW3610_SMART_MODE: u8 = 0x32;

pub const PMW3610_POWER_UP_RESET: u8 = 0x3a;

pub const PMW3610_SPI_CLK_ON_REQ: u8 = 0x41;

pub const PMW3610_SPI_PAGE0: u8 = 0x7f;

// Page 1 registers.

pub const PMW3610_RES_STEP: u8 = 0x05;

pub const PMW3610_SPI_PAGE1: u8 = 0x7f;

// Offsets into a motion burst.

pub const BURST_MOTION: usize = 0;

pub const BURST_DELTA_X_L: usize = 1;

pub const BURST_DELTA_Y_L: usize = 2;

pub const BURST_DELTA_XY_H: usize = 3;

pub const BURST_SHUTTER_HI: usize = 5;

pub const BURST_SHUTTER_LO: usize = 6;

/// Bytes of a burst that carries movement only.
pub const BURST_DATA_LEN_NORMAL: usize = 4;

/// Bytes of a burst that carries the shutter value too.
pub const BURST_DATA_LEN_SMART: usize = 7;

// Values of the initialisation sequence.

pub const OBSERVATION1_INIT_MASK: u8 = 0x0f;

pub const PERFORMANCE_INIT: u8 = 0x0d;

pub const RUN_DOWNSHIFT_INIT: u8 = 0x04;

pub const REST1_RATE_INIT: u8 = 0x04;

pub const REST1_DOWNSHIFT_INIT: u8 = 0x0f;

// Field values and masks.

pub const PRODUCT_ID_PMW3610: u8 = 0x3e;

/// Mask of the register address in the first byte of a transfer.
pub const SPI_ADDRESS_MASK: u8 = 0x7f;

/// Set in the first byte of a transfer that writes.
pub const SPI_WRITE: u8 = 0x80;

pub const MOTION_STATUS_MOTION: u8 = 0x80;

pub const SPI_CLOCK_ON_REQ_ON: u8 = 0xba;

pub const SPI_CLOCK_ON_REQ_OFF: u8 = 0xb5;

pub const RES_STEP_SWAP_XY: u8 = 0x80;

pub const RES_STEP_INV_X: u8 = 0x40;

pub const RES_STEP_INV_Y: u8 = 0x20;

/// The three axis bits of `RES_STEP`.
pub const RES_STEP_AXIS_MASK: u8 = 0xe0;

pub const RES_STEP_RES_MASK: u8 = 0x1f;

pub const PERFORMANCE_FMODE_MASK: u8 = 0xf0;

pub const PERFORMANCE_FMODE_NORMAL: u8 = 0x00;

pub const PERFORMANCE_FMODE_FORCE_AWAKE: u8 = 0xf0;

pub const POWER_UP_RESET_VAL: u8 = 0x5a;

/// Written to the page register of page 0, selects page 1.
pub const SPI_PAGE0_1: u8 = 0xff;

/// Written to the page register of page 1, selects page 0.
pub const SPI_PAGE1_0: u8 = 0x00;

pub const SHUTTER_SMART_THRESHOLD: u16 = 45;

pub const SMART_MODE_ENABLE: u8 = 0x00;

pub const SMART_MODE_DISABLE: u8 = 0x80;

/// Width of a movement delta.
pub const PMW3610_DATA_SIZE_BITS: usize = 12;

// Timings of the initialisation sequence.

pub const POWER_UP_DELAY_MS: u64 = 1;

pub const RESET_DELAY_MS: u64 = 10;

pub const INIT_OBSERVATION_DELAY_MS: u64 = 10;

pub const CLOCK_ON_DELAY_US: u64 = 300;

// Timings of a transfer, from the datasheet.

pub const T_NCS_SCLK_US: u64 = 1;

pub const T_SRAD_US: u64 = 5;

pub const T_SRX_US: u64 = 2;

pub const T_SWX_US: u64 = 35;

pub const T_SCLK_NCS_WR_US: u64 = 20;

pub const T_BEXIT_US: u64 = 2;

// Resolution, in counts per inch.

pub const RES_STEP: u16 = 200;

pub const RES_MIN: u16 = 200;

pub const RES_MAX: u16 = 3200;

} // verus!
