//! Configuration, errors and movement of the sensor.

use vstd::prelude::*;

verus! {

/// PMW3610 configuration
#[derive(Clone, Copy, Debug)]
pub struct Pmw3610Config {
    /// CPI resolution (200-3200, step 200). Set to -1 to use default.
    pub res_cpi: i16,
    /// Invert X axis
    pub invert_x: bool,
    /// Invert Y axis
    pub invert_y: bool,
    /// Swap X and Y axes
    pub swap_xy: bool,
    /// Force awake mode (disable power saving)
    pub force_awake: bool,
    /// Enable smart mode for better tracking on shiny surfaces
    pub smart_mode: bool,
}

impl Default for Pmw3610Config {
    /// Default resolution, axes as they are, power saving on, smart mode off.
    fn default() -> (config: Self)
        ensures
            config.res_cpi == -1,
            !config.invert_x && !config.invert_y && !config.swap_xy,
            !config.force_awake && !config.smart_mode,
    {
        Pmw3610Config {
            res_cpi: -1,
            invert_x: false,
            invert_y: false,
            swap_xy: false,
            force_awake: false,
            smart_mode: false,
        }
    }
}

/// PMW3610 error types
#[derive(Debug, Clone, Copy, PartialEq, Eq, Structural)]
pub enum Pmw3610Error {
    /// SPI communication error
    Spi,
    /// Invalid product ID detected
    InvalidProductId(u8),
    /// Initialization failed
    InitFailed,
    /// Invalid CPI value
    InvalidCpi,
}

/// Motion data from the sensor
#[derive(Debug, Clone, Copy, PartialEq, Eq, Structural)]
pub struct MotionData {
    pub dx: i16,
    pub dy: i16,
}

impl Default for MotionData {
    /// No movement.
    fn default() -> (motion: Self)
        ensures
            motion == (MotionData { dx: 0, dy: 0 }),
    {
        MotionData { dx: 0, dy: 0 }
    }
}

} // verus!
