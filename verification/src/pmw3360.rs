//! Planning of the code that initialises PMW3360 sensors.
//!
//! A plan holds every name and value that goes into the generated code. Turning a
//! plan into tokens is left to the code generator.

use crate::text::{append_decimal, decimal, numeral_value, to_uppercase, uppercase};
use vstd::prelude::*;

verus! {

/// The resolution of a sensor that is configured without one.
pub const DEFAULT_CPI: u16 = 1600;

/// The family of a chip.
#[derive(Clone, Copy, Debug, PartialEq, Eq, Structural)]
pub enum ChipSeries {
    Stm32,
    Nrf52,
    Rp2040,
    Esp32,
}

/// A chip, as far as it matters here.
#[derive(Clone, Copy, Debug, PartialEq, Eq, Structural)]
pub struct ChipModel {
    pub series: ChipSeries,
}

/// The SPI bus of a sensor: peripheral and pins.
#[derive(Debug)]
pub struct SpiConfig {
    pub instance: String,
    pub sck: String,
    pub mosi: String,
    pub miso: String,
    pub cs: Option<String>,
}

/// A PMW3360 sensor, as configured.
#[derive(Debug)]
pub struct Pmw3360Config {
    /// Name of the sensor; empty for one made up from its position.
    pub name: String,
    pub spi: SpiConfig,
    /// Motion pin
    pub motion: Option<String>,
    pub cpi: Option<u16>,
    pub rot_trans_angle: i8,
    pub liftoff_dist: u8,
    pub invert_x: bool,
    pub invert_y: bool,
    pub swap_xy: bool,
    pub auto_mouse_layer: Option<u8>,
    pub auto_mouse_timeout_ms: u32,
}

/// Why sensors cannot be initialised.
#[derive(Clone, Copy, Debug, PartialEq, Eq, Structural)]
pub enum ExpandError {
    /// The chip is of a family without support for the sensor.
    UnsupportedChip,
    /// A sensor has no chip-select pin.
    MissingCs,
}

impl ExpandError {
    /// The message for the user.
    pub fn message(&self) -> (text: &'static str)
        ensures
            *self is UnsupportedChip ==> text@
                == "PMW3360 is only supported on nRF52 and RP2040 chips"@,
            *self is MissingCs ==> text@ == "pmw3360 requires `cs` in spi config"@,
    {
        match self {
            ExpandError::UnsupportedChip => "PMW3360 is only supported on nRF52 and RP2040 chips",
            ExpandError::MissingCs => "pmw3360 requires `cs` in spi config",
        }
    }
}

/// What the code for a family needs beyond the common values.
#[derive(Debug)]
pub enum Platform {
    Nrf52,
    /// The two DMA channels of the bus.
    Rp2040 { dma_tx: String, dma_rx: String },
}

/// The initialiser of a sensor.
#[derive(Debug)]
pub struct DevicePlan {
    /// The variable that it declares
    pub var_name: String,
    pub platform: Platform,
    pub spi_instance: String,
    pub sck: String,
    pub mosi: String,
    pub miso: String,
    pub cs: String,
    pub motion: Option<String>,
    pub res_cpi: u16,
    pub rot_trans_angle: i8,
    pub liftoff_dist: u8,
    pub invert_x: bool,
    pub invert_y: bool,
    pub swap_xy: bool,
}

/// The initialiser of a sensor's processor.
#[derive(Debug)]
pub struct ProcessorPlan {
    /// The variable that it declares
    pub var_name: String,
    /// Layer and timeout in milliseconds of the auto mouse layer
    pub auto_mouse: Option<(u8, u32)>,
}

/// Whether the sensor is supported on a chip.
pub open spec fn supported(chip: ChipModel) -> bool {
    chip.series is Nrf52 || chip.series is Rp2040
}

/// The name of the sensor at position `idx`.
pub open spec fn sensor_name(sensor: Pmw3360Config, idx: nat) -> Seq<char> {
    if sensor.name@.len() == 0 {
        "pmw3360_"@ + decimal(idx)
    } else {
        sensor.name@
    }
}

/// The name of a DMA channel.
pub open spec fn dma_channel(number: nat) -> Seq<char> {
    "DMA_CH"@ + decimal(number)
}

/// The channel that sends for the sensor at position `idx`.
pub open spec fn dma_tx_number(idx: nat) -> nat {
    2 + idx * 2
}

/// The channel that receives for the sensor at position `idx`.
pub open spec fn dma_rx_number(idx: nat) -> nat {
    3 + idx * 2
}

/// The text in an option.
pub open spec fn text_of(text: Option<String>) -> Option<Seq<char>> {
    match text {
        Some(t) => Some(t@),
        None => None,
    }
}

impl DevicePlan {
    /// Whether this is the plan for the sensor at position `idx`, when the name of
    /// its bus in upper case is `instance`.
    pub open spec fn is_for(
        self,
        sensor: Pmw3360Config,
        idx: nat,
        chip: ChipModel,
        instance: Seq<char>,
    ) -> bool {
        &&& self.var_name@ == sensor_name(sensor, idx) + "_device"@
        &&& match self.platform {
            Platform::Nrf52 => chip.series is Nrf52,
            Platform::Rp2040 { dma_tx, dma_rx } => chip.series is Rp2040 && dma_tx@
                == dma_channel(dma_tx_number(idx)) && dma_rx@ == dma_channel(dma_rx_number(idx)),
        }
        &&& self.spi_instance@ == instance
        &&& self.sck@ == sensor.spi.sck@
        &&& self.mosi@ == sensor.spi.mosi@
        &&& self.miso@ == sensor.spi.miso@
        &&& text_of(sensor.spi.cs) == Some(self.cs@)
        &&& text_of(self.motion) == text_of(sensor.motion)
        &&& self.res_cpi == match sensor.cpi {
            Some(cpi) => cpi,
            None => DEFAULT_CPI,
        }
        &&& self.rot_trans_angle == sensor.rot_trans_angle
        &&& self.liftoff_dist == sensor.liftoff_dist
        &&& self.invert_x == sensor.invert_x
        &&& self.invert_y == sensor.invert_y
        &&& self.swap_xy == sensor.swap_xy
    }
}

impl ProcessorPlan {
    /// Whether this is the plan for the processor of the sensor at position `idx`.
    pub open spec fn is_for(self, sensor: Pmw3360Config, idx: nat) -> bool {
        &&& self.var_name@ == sensor_name(sensor, idx) + "_processor"@
        &&& self.auto_mouse == match sensor.auto_mouse_layer {
            Some(layer) => Some((layer, sensor.auto_mouse_timeout_ms)),
            None => None,
        }
    }
}

/// Whether a sensor has a chip-select pin.
pub open spec fn has_cs(sensor: Pmw3360Config) -> bool {
    sensor.spi.cs is Some
}

/// Plans the initialisation of sensors and of their processors, each in the order
/// in which the sensors are configured.
///
/// Without sensors there is nothing to plan, whatever the chip. The numbers of the
/// DMA channels have to fit in a `usize`.
pub fn expand_pmw3360_device(pmw3360_config: Vec<Pmw3360Config>, chip: &ChipModel) -> (plans: Result<
    (Vec<DevicePlan>, Vec<ProcessorPlan>),
    ExpandError,
>)
    requires
        chip.series is Rp2040 ==> pmw3360_config.len() * 2 + 1 <= usize::MAX,
    ensures
        match plans {
            Ok((devices, processors)) => {
                &&& pmw3360_config.len() == 0 || supported(*chip)
                &&& forall|i: int|
                    0 <= i < pmw3360_config.len() ==> has_cs(#[trigger] pmw3360_config@[i])
                &&& devices.len() == pmw3360_config.len()
                &&& processors.len() == pmw3360_config.len()
                &&& forall|i: int|
                    0 <= i < pmw3360_config.len() ==> (#[trigger] devices@[i]).is_for(
                        pmw3360_config@[i],
                        i as nat,
                        *chip,
                        uppercase(pmw3360_config@[i].spi.instance@),
                    )
                &&& forall|i: int|
                    0 <= i < pmw3360_config.len() ==> (#[trigger] processors@[i]).is_for(
                        pmw3360_config@[i],
                        i as nat,
                    )
            },
            Err(ExpandError::UnsupportedChip) => pmw3360_config.len() > 0 && !supported(*chip),
            Err(ExpandError::MissingCs) => supported(*chip) && exists|i: int|
                0 <= i < pmw3360_config.len() && !has_cs(#[trigger] pmw3360_config@[i]),
        },
{
    let mut device_initializers: Vec<DevicePlan> = Vec::new();
    let mut processor_initializers: Vec<ProcessorPlan> = Vec::new();
    if pmw3360_config.len() == 0 {
        return Ok((device_initializers, processor_initializers));
    }
    match chip.series {
        ChipSeries::Nrf52 => {},
        ChipSeries::Rp2040 => {},
        _ => {
            return Err(ExpandError::UnsupportedChip);
        },
    }
    let mut idx: usize = 0;
    while idx < pmw3360_config.len()
        invariant
            idx <= pmw3360_config.len(),
            supported(*chip),
            chip.series is Rp2040 ==> pmw3360_config.len() * 2 + 1 <= usize::MAX,
            device_initializers.len() == idx,
            processor_initializers.len() == idx,
            forall|i: int| 0 <= i < idx ==> has_cs(#[trigger] pmw3360_config@[i]),
            forall|i: int|
                0 <= i < idx ==> (#[trigger] device_initializers@[i]).is_for(
                    pmw3360_config@[i],
                    i as nat,
                    *chip,
                    uppercase(pmw3360_config@[i].spi.instance@),
                ),
            forall|i: int|
                0 <= i < idx ==> (#[trigger] processor_initializers@[i]).is_for(
                    pmw3360_config@[i],
                    i as nat,
                ),
        decreases pmw3360_config.len() - idx,
    {
        let sensor = &pmw3360_config[idx];
        let spi_instance = to_uppercase(sensor.spi.instance.as_str());
        match plan_device(sensor, idx, chip, spi_instance) {
            Some(plan) => {
                device_initializers.push(plan);
            },
            None => {
                assert(!has_cs(pmw3360_config@[idx as int]));
                return Err(ExpandError::MissingCs);
            },
        }
        processor_initializers.push(plan_processor(sensor, idx));
        idx = idx + 1;
    }
    Ok((device_initializers, processor_initializers))
}

/// Plans the initialisation of the sensor at position `idx`, where it has a
/// chip-select pin. `spi_instance` is the name of its bus in upper case.
pub fn plan_device(
    sensor: &Pmw3360Config,
    idx: usize,
    chip: &ChipModel,
    spi_instance: String,
) -> (plan: Option<DevicePlan>)
    requires
        supported(*chip),
        chip.series is Rp2040 ==> idx * 2 + 3 <= usize::MAX,
    ensures
        plan is Some <==> has_cs(*sensor),
        plan matches Some(p) ==> p.is_for(*sensor, idx as nat, *chip, spi_instance@),
{
    let cs = match &sensor.spi.cs {
        Some(cs) => cs.clone(),
        None => {
            return None;
        },
    };
    let mut var_name = plan_name(sensor, idx);
    var_name.append("_device");
    let platform = match chip.series {
        ChipSeries::Rp2040 => {
            // Use DMA channels based on sensor index to avoid conflicts
            Platform::Rp2040 {
                dma_tx: plan_dma_channel(2 + idx * 2),
                dma_rx: plan_dma_channel(3 + idx * 2),
            }
        },
        _ => Platform::Nrf52,
    };
    Some(
        DevicePlan {
            var_name,
            platform,
            spi_instance,
            sck: sensor.spi.sck.clone(),
            mosi: sensor.spi.mosi.clone(),
            miso: sensor.spi.miso.clone(),
            cs,
            motion: match &sensor.motion {
                Some(pin) => Some(pin.clone()),
                None => None,
            },
            res_cpi: match sensor.cpi {
                Some(cpi) => cpi,
                None => DEFAULT_CPI,
            },
            rot_trans_angle: sensor.rot_trans_angle,
            liftoff_dist: sensor.liftoff_dist,
            invert_x: sensor.invert_x,
            invert_y: sensor.invert_y,
            swap_xy: sensor.swap_xy,
        },
    )
}

/// Plans the initialisation of the processor of the sensor at position `idx`.
pub fn plan_processor(sensor: &Pmw3360Config, idx: usize) -> (plan: ProcessorPlan)
    ensures
        plan.is_for(*sensor, idx as nat),
{
    let mut var_name = plan_name(sensor, idx);
    var_name.append("_processor");
    ProcessorPlan {
        var_name,
        auto_mouse: match sensor.auto_mouse_layer {
            Some(layer) => Some((layer, sensor.auto_mouse_timeout_ms)),
            None => None,
        },
    }
}

/// The name of the sensor at position `idx`.
fn plan_name(sensor: &Pmw3360Config, idx: usize) -> (name: String)
    ensures
        name@ == sensor_name(*sensor, idx as nat),
{
    if sensor.name.as_str().is_empty() {
        let mut name = String::new();
        name.append("pmw3360_");
        append_decimal(&mut name, idx);
        assert(name@ =~= sensor_name(*sensor, idx as nat));
        name
    } else {
        sensor.name.clone()
    }
}

/// The name of a DMA channel.
fn plan_dma_channel(number: usize) -> (name: String)
    ensures
        name@ == dma_channel(number as nat),
{
    let mut name = String::new();
    name.append("DMA_CH");
    append_decimal(&mut name, number);
    assert(name@ =~= dma_channel(number as nat));
    name
}

/// A common prefix does not make different texts equal.
proof fn lemma_prefix_injective(prefix: Seq<char>, a: Seq<char>, b: Seq<char>)
    requires
        prefix + a == prefix + b,
    ensures
        a == b,
{
    assert((prefix + a).skip(prefix.len() as int) =~= a);
    assert((prefix + b).skip(prefix.len() as int) =~= b);
}

/// No two buses share a DMA channel: the sending and the receiving channels of all
/// sensors are different.
pub proof fn law_dma_channels_do_not_conflict(i: nat, j: nat)
    ensures
        dma_channel(dma_tx_number(i)) != dma_channel(dma_rx_number(j)),
        i != j ==> dma_channel(dma_tx_number(i)) != dma_channel(dma_tx_number(j)),
        i != j ==> dma_channel(dma_rx_number(i)) != dma_channel(dma_rx_number(j)),
{
    if dma_channel(dma_tx_number(i)) == dma_channel(dma_rx_number(j)) {
        law_channel_names_injective(dma_tx_number(i), dma_rx_number(j));
    }
    if dma_channel(dma_tx_number(i)) == dma_channel(dma_tx_number(j)) {
        law_channel_names_injective(dma_tx_number(i), dma_tx_number(j));
    }
    if dma_channel(dma_rx_number(i)) == dma_channel(dma_rx_number(j)) {
        law_channel_names_injective(dma_rx_number(i), dma_rx_number(j));
    }
}

/// Channels with the same name have the same number.
pub proof fn law_channel_names_injective(a: nat, b: nat)
    requires
        dma_channel(a) == dma_channel(b),
    ensures
        a == b,
{
    lemma_prefix_injective("DMA_CH"@, decimal(a), decimal(b));
    crate::text::law_decimal_injective(a, b);
}

/// Sensors without a name of their own get different ones.
pub proof fn law_made_up_names_differ(a: Pmw3360Config, i: nat, b: Pmw3360Config, j: nat)
    requires
        a.name@.len() == 0,
        b.name@.len() == 0,
        i != j,
    ensures
        sensor_name(a, i) != sensor_name(b, j),
        sensor_name(a, i) + "_device"@ != sensor_name(b, j) + "_device"@,
        sensor_name(a, i) + "_processor"@ != sensor_name(b, j) + "_processor"@,
{
    let (x, y) = (sensor_name(a, i), sensor_name(b, j));
    if x == y {
        lemma_prefix_injective("pmw3360_"@, decimal(i), decimal(j));
        crate::text::law_decimal_injective(i, j);
    }
    if x + "_device"@ == y + "_device"@ {
        assert((x + "_device"@).len() == (y + "_device"@).len());
        assert((x + "_device"@).take(x.len() as int) =~= x);
        assert((y + "_device"@).take(y.len() as int) =~= y);
    }
    if x + "_processor"@ == y + "_processor"@ {
        assert((x + "_processor"@).len() == (y + "_processor"@).len());
        assert((x + "_processor"@).take(x.len() as int) =~= x);
        assert((y + "_processor"@).take(y.len() as int) =~= y);
    }
}

/// The sensor is supported on nRF52 and RP2040 and on nothing else.
pub proof fn law_supported_chips(chip: ChipModel)
    ensures
        supported(chip) <==> !(chip.series is Stm32) && !(chip.series is Esp32),
{
}

/// The channels are handed out in order from number 2 on, two to a sensor, the one that
/// sends before the one that receives.
pub proof fn law_dma_channels_in_order(idx: nat)
    ensures
        dma_tx_number(0) == 2,
        dma_rx_number(idx) == dma_tx_number(idx) + 1,
        dma_tx_number(idx + 1) == dma_rx_number(idx) + 1,
{
}

/// The name of a channel is `DMA_CH` and the numeral of its number.
pub proof fn law_channel_name(number: nat)
    ensures
        ({
            let name = dma_channel(number);
            &&& name.len() > 6
            &&& name.take(6) == "DMA_CH"@
            &&& numeral_value(name.skip(6)) == number
        }),
{
    reveal_strlit("DMA_CH");
    crate::text::law_decimal_reads_back(number);
    assert("DMA_CH"@.len() == 6);
    assert(dma_channel(number).take(6) =~= "DMA_CH"@);
    assert(dma_channel(number).skip(6) =~= decimal(number));
}

/// A sensor keeps its name. One without a name is called `pmw3360_` and the numeral of its
/// position.
pub proof fn law_sensor_name(sensor: Pmw3360Config, idx: nat)
    ensures
        ({
            let name = sensor_name(sensor, idx);
            if sensor.name@.len() > 0 {
                name == sensor.name@
            } else {
                &&& name.len() > 8
                &&& name.take(8) == "pmw3360_"@
                &&& numeral_value(name.skip(8)) == idx
            }
        }),
{
    reveal_strlit("pmw3360_");
    crate::text::law_decimal_reads_back(idx);
    if sensor.name@.len() == 0 {
        assert("pmw3360_"@.len() == 8);
        assert(sensor_name(sensor, idx).take(8) =~= "pmw3360_"@);
        assert(sensor_name(sensor, idx).skip(8) =~= decimal(idx));
    }
}

/// The plan for a sensor carries over its pins and settings, each to the place of the same
/// name, with 1600 CPI where none are given; it declares a device of the sensor's name, is
/// for the family of the chip, and on an RP2040 has the channels of its position.
pub proof fn law_device_plan(
    plan: DevicePlan,
    sensor: Pmw3360Config,
    idx: nat,
    chip: ChipModel,
    instance: Seq<char>,
)
    requires
        plan.is_for(sensor, idx, chip, instance),
    ensures
        plan.var_name@ == sensor_name(sensor, idx) + "_device"@,
        plan.spi_instance@ == instance,
        plan.sck@ == sensor.spi.sck@ && plan.mosi@ == sensor.spi.mosi@,
        plan.miso@ == sensor.spi.miso@,
        sensor.spi.cs is Some && plan.cs@ == sensor.spi.cs->0@,
        plan.motion is Some <==> sensor.motion is Some,
        plan.motion is Some ==> plan.motion->0@ == sensor.motion->0@,
        sensor.cpi is Some ==> plan.res_cpi == sensor.cpi->0,
        sensor.cpi is None ==> plan.res_cpi == 1600,
        plan.rot_trans_angle == sensor.rot_trans_angle,
        plan.liftoff_dist == sensor.liftoff_dist,
        plan.invert_x == sensor.invert_x && plan.invert_y == sensor.invert_y,
        plan.swap_xy == sensor.swap_xy,
        plan.platform is Nrf52 <==> chip.series is Nrf52,
        plan.platform is Rp2040 <==> chip.series is Rp2040,
        plan.platform matches Platform::Rp2040 { dma_tx, dma_rx } ==> {
            &&& dma_tx@ == dma_channel(2 + 2 * idx)
            &&& dma_rx@ == dma_channel(3 + 2 * idx)
        },
{
}

/// The plan for a processor declares one of the sensor's name, and has an auto mouse layer
/// exactly where the sensor does, with the sensor's timeout.
pub proof fn law_processor_plan(plan: ProcessorPlan, sensor: Pmw3360Config, idx: nat)
    requires
        plan.is_for(sensor, idx),
    ensures
        plan.var_name@ == sensor_name(sensor, idx) + "_processor"@,
        plan.auto_mouse is Some <==> sensor.auto_mouse_layer is Some,
        plan.auto_mouse matches Some((layer, timeout_ms)) ==> {
            &&& sensor.auto_mouse_layer == Some(layer)
            &&& timeout_ms == sensor.auto_mouse_timeout_ms
        },
{
}

/// A sensor has a chip-select pin exactly where its bus names one.
pub proof fn law_chip_select(sensor: Pmw3360Config)
    ensures
        has_cs(sensor) <==> !(sensor.spi.cs is None),
{
}

} // verus!
