//! The scripts that configure the sensor.

use super::registers::{
    CLOCK_ON_DELAY_US, INIT_OBSERVATION_DELAY_MS, PERFORMANCE_FMODE_FORCE_AWAKE,
    PERFORMANCE_FMODE_MASK, PERFORMANCE_FMODE_NORMAL, PERFORMANCE_INIT, PMW3610_BURST_READ,
    PMW3610_DELTA_XY_H, PMW3610_DELTA_X_L, PMW3610_DELTA_Y_L, PMW3610_MOTION, PMW3610_OBSERVATION1,
    PMW3610_PERFORMANCE, PMW3610_POWER_UP_RESET, PMW3610_PROD_ID, PMW3610_RES_STEP,
    PMW3610_REST1_DOWNSHIFT, PMW3610_REST1_RATE, PMW3610_RUN_DOWNSHIFT, PMW3610_SMART_MODE,
    PMW3610_SPI_CLK_ON_REQ, PMW3610_SPI_PAGE0, PMW3610_SPI_PAGE1, POWER_UP_DELAY_MS,
    POWER_UP_RESET_VAL, RESET_DELAY_MS, REST1_DOWNSHIFT_INIT, REST1_RATE_INIT, RES_MAX, RES_MIN,
    RES_STEP, RES_STEP_AXIS_MASK, RES_STEP_INV_X, RES_STEP_INV_Y, RES_STEP_RES_MASK,
    RES_STEP_SWAP_XY, RUN_DOWNSHIFT_INIT, SMART_MODE_DISABLE, SMART_MODE_ENABLE,
    SPI_CLOCK_ON_REQ_OFF, SPI_CLOCK_ON_REQ_ON, SPI_PAGE0_1, SPI_PAGE1_0,
};
use super::script::{Check, Instr};
use super::types::{Pmw3610Config, Pmw3610Error};
use crate::clock::{duration_from_micros, duration_from_millis, TICKS_PER_MILLI};
use vstd::prelude::*;

verus! {

/// Turn the register clock on and let it settle.
pub open spec fn clock_on() -> Seq<Instr> {
    seq![
        Instr::Write { addr: PMW3610_SPI_CLK_ON_REQ, value: SPI_CLOCK_ON_REQ_ON },
        Instr::Wait { ticks: CLOCK_ON_DELAY_US },
    ]
}

/// Turn the register clock off.
pub open spec fn clock_off() -> Seq<Instr> {
    seq![Instr::Write { addr: PMW3610_SPI_CLK_ON_REQ, value: SPI_CLOCK_ON_REQ_OFF }]
}

/// Whether the sensor can be set to a resolution.
pub open spec fn cpi_supported(cpi: int) -> bool {
    RES_MIN <= cpi <= RES_MAX
}

/// Set the resolution field, on page 1, to the number of whole steps in `cpi`.
pub open spec fn resolution_script(cpi: u16) -> Seq<Instr> {
    clock_on() + seq![
        Instr::Write { addr: PMW3610_SPI_PAGE0, value: SPI_PAGE0_1 },
        Instr::Read { addr: PMW3610_RES_STEP, check: Check::Nothing },
        Instr::WriteBack {
            addr: PMW3610_RES_STEP,
            clear: RES_STEP_RES_MASK,
            set: (cpi / RES_STEP) as u8,
        },
        Instr::Write { addr: PMW3610_SPI_PAGE1, value: SPI_PAGE1_0 },
    ] + clock_off()
}

/// The bits of the performance register that keep the sensor awake, or let it rest.
pub open spec fn awake_bits(enable: bool) -> u8 {
    if enable {
        PERFORMANCE_FMODE_FORCE_AWAKE
    } else {
        PERFORMANCE_FMODE_NORMAL
    }
}

/// Set the force-awake field of the performance register.
pub open spec fn awake_script(enable: bool) -> Seq<Instr> {
    seq![Instr::Read { addr: PMW3610_PERFORMANCE, check: Check::Nothing }] + clock_on() + seq![
        Instr::WriteBack {
            addr: PMW3610_PERFORMANCE,
            clear: PERFORMANCE_FMODE_MASK,
            set: awake_bits(enable),
        },
    ] + clock_off()
}

/// The axis bits that a configuration asks for.
pub open spec fn axis_bits(config: Pmw3610Config) -> u8 {
    (if config.swap_xy {
        RES_STEP_SWAP_XY
    } else {
        0
    }) | (if config.invert_x {
        RES_STEP_INV_X
    } else {
        0
    }) | (if config.invert_y {
        RES_STEP_INV_Y
    } else {
        0
    })
}

/// Reset the sensor, identify it, test it and set it up, up to the axis bits.
pub open spec fn setup_script(config: Pmw3610Config) -> Seq<Instr> {
    seq![
        Instr::Write { addr: PMW3610_POWER_UP_RESET, value: POWER_UP_RESET_VAL },
        Instr::Wait { ticks: (RESET_DELAY_MS * TICKS_PER_MILLI) as u64 },
        Instr::Read { addr: PMW3610_PROD_ID, check: Check::ProductId },
    ] + clock_on() + seq![
        Instr::Write { addr: PMW3610_OBSERVATION1, value: 0 },
        Instr::Wait { ticks: (INIT_OBSERVATION_DELAY_MS * TICKS_PER_MILLI) as u64 },
        Instr::Read { addr: PMW3610_OBSERVATION1, check: Check::Observation1 },
        Instr::Read { addr: PMW3610_MOTION, check: Check::Nothing },
        Instr::Read { addr: PMW3610_DELTA_X_L, check: Check::Nothing },
        Instr::Read { addr: PMW3610_DELTA_Y_L, check: Check::Nothing },
        Instr::Read { addr: PMW3610_DELTA_XY_H, check: Check::Nothing },
        Instr::Write { addr: PMW3610_PERFORMANCE, value: PERFORMANCE_INIT },
        Instr::Write { addr: PMW3610_RUN_DOWNSHIFT, value: RUN_DOWNSHIFT_INIT },
        Instr::Write { addr: PMW3610_REST1_RATE, value: REST1_RATE_INIT },
        Instr::Write { addr: PMW3610_REST1_DOWNSHIFT, value: REST1_DOWNSHIFT_INIT },
        Instr::Write { addr: PMW3610_SPI_PAGE0, value: SPI_PAGE0_1 },
        Instr::Read { addr: PMW3610_RES_STEP, check: Check::Nothing },
        Instr::WriteBack {
            addr: PMW3610_RES_STEP,
            clear: RES_STEP_AXIS_MASK,
            set: axis_bits(config),
        },
        Instr::Write { addr: PMW3610_SPI_PAGE1, value: SPI_PAGE1_0 },
    ] + clock_off()
}

/// What follows the set-up: the resolution, where one is asked for, and then the
/// force-awake field. An unsupported resolution ends the script.
pub open spec fn tuning_script(config: Pmw3610Config) -> Seq<Instr> {
    if config.res_cpi <= 0 {
        awake_script(config.force_awake)
    } else if cpi_supported(config.res_cpi as int) {
        resolution_script(config.res_cpi as u16) + awake_script(config.force_awake)
    } else {
        seq![Instr::Fail { error: Pmw3610Error::InvalidCpi }]
    }
}

/// Bring the sensor up: release the bus, wait, set up and tune.
pub open spec fn init_script(config: Pmw3610Config) -> Seq<Instr> {
    seq![
        Instr::Release,
        Instr::Wait { ticks: (POWER_UP_DELAY_MS * TICKS_PER_MILLI) as u64 },
    ] + setup_script(config) + tuning_script(config)
}

/// Read a motion burst.
pub open spec fn burst_script(len: usize) -> Seq<Instr> {
    seq![Instr::Burst { addr: PMW3610_BURST_READ, len }]
}

/// Switch smart mode: a raised smart flag goes with smart mode disabled.
pub open spec fn smart_script(smart_flag: bool) -> Seq<Instr> {
    clock_on() + seq![
        Instr::Write {
            addr: PMW3610_SMART_MODE,
            value: if smart_flag {
                SMART_MODE_DISABLE
            } else {
                SMART_MODE_ENABLE
            },
        },
    ] + clock_off()
}

/// Appends what turns the register clock on.
pub fn spi_clk_on(script: &mut Vec<Instr>)
    ensures
        final(script)@ == old(script)@ + clock_on(),
{
    script.push(Instr::Write { addr: PMW3610_SPI_CLK_ON_REQ, value: SPI_CLOCK_ON_REQ_ON });
    script.push(Instr::Wait { ticks: duration_from_micros(CLOCK_ON_DELAY_US) });
    assert(script@ =~= old(script)@ + clock_on());
}

/// Appends what turns the register clock off.
pub fn spi_clk_off(script: &mut Vec<Instr>)
    ensures
        final(script)@ == old(script)@ + clock_off(),
{
    script.push(Instr::Write { addr: PMW3610_SPI_CLK_ON_REQ, value: SPI_CLOCK_ON_REQ_OFF });
    assert(script@ =~= old(script)@ + clock_off());
}

/// Appends what sets the resolution, or fails on an unsupported one.
pub fn set_resolution(script: &mut Vec<Instr>, cpi: u16) -> (result: Result<(), Pmw3610Error>)
    ensures
        cpi_supported(cpi as int) ==> result is Ok && final(script)@ == old(script)@
            + resolution_script(cpi),
        !cpi_supported(cpi as int) ==> result == Err::<(), Pmw3610Error>(Pmw3610Error::InvalidCpi)
            && final(script)@ == old(script)@,
{
    if !(RES_MIN <= cpi && cpi <= RES_MAX) {
        return Err(Pmw3610Error::InvalidCpi);
    }
    spi_clk_on(script);
    script.push(Instr::Write { addr: PMW3610_SPI_PAGE0, value: SPI_PAGE0_1 });
    script.push(Instr::Read { addr: PMW3610_RES_STEP, check: Check::Nothing });
    script.push(
        Instr::WriteBack {
            addr: PMW3610_RES_STEP,
            clear: RES_STEP_RES_MASK,
            set: (cpi / RES_STEP) as u8,
        },
    );
    script.push(Instr::Write { addr: PMW3610_SPI_PAGE1, value: SPI_PAGE1_0 });
    spi_clk_off(script);
    assert(script@ =~= old(script)@ + resolution_script(cpi));
    Ok(())
}

/// Appends what sets the force-awake field.
pub fn force_awake(script: &mut Vec<Instr>, enable: bool)
    ensures
        final(script)@ == old(script)@ + awake_script(enable),
{
    script.push(Instr::Read { addr: PMW3610_PERFORMANCE, check: Check::Nothing });
    spi_clk_on(script);
    script.push(
        Instr::WriteBack {
            addr: PMW3610_PERFORMANCE,
            clear: PERFORMANCE_FMODE_MASK,
            set: if enable {
                PERFORMANCE_FMODE_FORCE_AWAKE
            } else {
                PERFORMANCE_FMODE_NORMAL
            },
        },
    );
    spi_clk_off(script);
    assert(script@ =~= old(script)@ + awake_script(enable));
}

/// Appends the set-up.
fn setup(script: &mut Vec<Instr>, config: &Pmw3610Config)
    ensures
        final(script)@ == old(script)@ + setup_script(*config),
{
    script.push(Instr::Write { addr: PMW3610_POWER_UP_RESET, value: POWER_UP_RESET_VAL });
    script.push(Instr::Wait { ticks: duration_from_millis(RESET_DELAY_MS) });
    script.push(Instr::Read { addr: PMW3610_PROD_ID, check: Check::ProductId });
    spi_clk_on(script);
    script.push(Instr::Write { addr: PMW3610_OBSERVATION1, value: 0 });
    script.push(Instr::Wait { ticks: duration_from_millis(INIT_OBSERVATION_DELAY_MS) });
    script.push(Instr::Read { addr: PMW3610_OBSERVATION1, check: Check::Observation1 });
    script.push(Instr::Read { addr: PMW3610_MOTION, check: Check::Nothing });
    script.push(Instr::Read { addr: PMW3610_DELTA_X_L, check: Check::Nothing });
    script.push(Instr::Read { addr: PMW3610_DELTA_Y_L, check: Check::Nothing });
    script.push(Instr::Read { addr: PMW3610_DELTA_XY_H, check: Check::Nothing });
    script.push(Instr::Write { addr: PMW3610_PERFORMANCE, value: PERFORMANCE_INIT });
    script.push(Instr::Write { addr: PMW3610_RUN_DOWNSHIFT, value: RUN_DOWNSHIFT_INIT });
    script.push(Instr::Write { addr: PMW3610_REST1_RATE, value: REST1_RATE_INIT });
    script.push(Instr::Write { addr: PMW3610_REST1_DOWNSHIFT, value: REST1_DOWNSHIFT_INIT });
    script.push(Instr::Write { addr: PMW3610_SPI_PAGE0, value: SPI_PAGE0_1 });
    script.push(Instr::Read { addr: PMW3610_RES_STEP, check: Check::Nothing });
    let swap: u8 = if config.swap_xy {
        RES_STEP_SWAP_XY
    } else {
        0
    };
    let flip_x: u8 = if config.invert_x {
        RES_STEP_INV_X
    } else {
        0
    };
    let flip_y: u8 = if config.invert_y {
        RES_STEP_INV_Y
    } else {
        0
    };
    script.push(
        Instr::WriteBack {
            addr: PMW3610_RES_STEP,
            clear: RES_STEP_AXIS_MASK,
            set: swap | flip_x | flip_y,
        },
    );
    script.push(Instr::Write { addr: PMW3610_SPI_PAGE1, value: SPI_PAGE1_0 });
    spi_clk_off(script);
    assert(script@ =~= old(script)@ + setup_script(*config));
}

/// Appends the set-up and the tuning.
pub fn configure(script: &mut Vec<Instr>, config: &Pmw3610Config)
    ensures
        final(script)@ == old(script)@ + setup_script(*config) + tuning_script(*config),
{
    setup(script, config);
    if config.res_cpi > 0 {
        match set_resolution(script, config.res_cpi as u16) {
            Ok(()) => {},
            Err(error) => {
                script.push(Instr::Fail { error });
                assert(script@ =~= old(script)@ + setup_script(*config) + tuning_script(*config));
                return ;
            },
        }
    }
    force_awake(script, config.force_awake);
    assert(script@ =~= old(script)@ + setup_script(*config) + tuning_script(*config));
}

/// Builds the script that brings the sensor up.
pub fn init(config: &Pmw3610Config) -> (script: Vec<Instr>)
    ensures
        script@ == init_script(*config),
{
    let mut script: Vec<Instr> = Vec::new();
    script.push(Instr::Release);
    script.push(Instr::Wait { ticks: duration_from_millis(POWER_UP_DELAY_MS) });
    let ghost prefix = script@;
    configure(&mut script, config);
    assert(prefix =~= seq![
        Instr::Release,
        Instr::Wait { ticks: (POWER_UP_DELAY_MS * TICKS_PER_MILLI) as u64 },
    ]);
    script
}

/// Builds the script that reads a motion burst.
pub fn read_burst(len: usize) -> (script: Vec<Instr>)
    ensures
        script@ == burst_script(len),
{
    let mut script: Vec<Instr> = Vec::new();
    script.push(Instr::Burst { addr: PMW3610_BURST_READ, len });
    assert(script@ =~= burst_script(len));
    script
}

/// Builds the script that switches smart mode.
pub fn switch_smart_mode(smart_flag: bool) -> (script: Vec<Instr>)
    ensures
        script@ == smart_script(smart_flag),
{
    let mut script: Vec<Instr> = Vec::new();
    spi_clk_on(&mut script);
    script.push(
        Instr::Write {
            addr: PMW3610_SMART_MODE,
            value: if smart_flag {
                SMART_MODE_DISABLE
            } else {
                SMART_MODE_ENABLE
            },
        },
    );
    spi_clk_off(&mut script);
    assert(script@ =~= smart_script(smart_flag));
    script
}

} // verus!
