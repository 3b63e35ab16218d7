use rmk_pointing::pmw3360::{
    expand_pmw3360_device, plan_device, plan_processor, ChipModel, ChipSeries, ExpandError,
    Platform, Pmw3360Config, SpiConfig,
};
use rmk_pointing::text::append_decimal;

fn sensor(name: &str) -> Pmw3360Config {
    Pmw3360Config {
        name: name.to_string(),
        spi: SpiConfig {
            instance: "spi0".to_string(),
            sck: "P0_05".to_string(),
            mosi: "P0_06".to_string(),
            miso: "P0_07".to_string(),
            cs: Some("P0_08".to_string()),
        },
        motion: Some("P0_09".to_string()),
        cpi: None,
        rot_trans_angle: -15,
        liftoff_dist: 8,
        invert_x: true,
        invert_y: false,
        swap_xy: true,
        auto_mouse_layer: None,
        auto_mouse_timeout_ms: 600,
    }
}

fn chip(series: ChipSeries) -> ChipModel {
    ChipModel { series }
}

#[test]
fn no_sensors_on_any_chip() {
    for series in [ChipSeries::Stm32, ChipSeries::Nrf52, ChipSeries::Rp2040, ChipSeries::Esp32] {
        let (devices, processors) = expand_pmw3360_device(Vec::new(), &chip(series)).unwrap();
        assert!(devices.is_empty() && processors.is_empty());
    }
}

#[test]
fn unsupported_chips() {
    for series in [ChipSeries::Stm32, ChipSeries::Esp32] {
        let error = expand_pmw3360_device(vec![sensor("a")], &chip(series)).unwrap_err();
        assert_eq!(error, ExpandError::UnsupportedChip);
        assert_eq!(error.message(), "PMW3360 is only supported on nRF52 and RP2040 chips");
    }
}

#[test]
fn missing_chip_select() {
    let mut bare = sensor("a");
    bare.spi.cs = None;
    let error =
        expand_pmw3360_device(vec![sensor("b"), bare], &chip(ChipSeries::Nrf52)).unwrap_err();
    assert_eq!(error, ExpandError::MissingCs);
    assert_eq!(error.message(), "pmw3360 requires `cs` in spi config");
}

#[test]
fn plan_on_nrf52() {
    let (devices, processors) =
        expand_pmw3360_device(vec![sensor("ball"), sensor("")], &chip(ChipSeries::Nrf52)).unwrap();
    assert_eq!(devices.len(), 2);
    let plan = &devices[0];
    assert_eq!(plan.var_name, "ball_device");
    assert!(matches!(plan.platform, Platform::Nrf52));
    assert_eq!(plan.spi_instance, "SPI0");
    assert_eq!((plan.sck.as_str(), plan.mosi.as_str()), ("P0_05", "P0_06"));
    assert_eq!((plan.miso.as_str(), plan.cs.as_str()), ("P0_07", "P0_08"));
    assert_eq!(plan.motion.as_deref(), Some("P0_09"));
    assert_eq!(plan.res_cpi, 1600);
    assert_eq!((plan.rot_trans_angle, plan.liftoff_dist), (-15, 8));
    assert!(plan.invert_x && !plan.invert_y && plan.swap_xy);
    assert_eq!(devices[1].var_name, "pmw3360_1_device");
    assert_eq!(processors[0].var_name, "ball_processor");
    assert_eq!(processors[1].var_name, "pmw3360_1_processor");
    assert_eq!(processors[0].auto_mouse, None);
}

#[test]
fn dma_channels_on_rp2040() {
    let mut sensors = Vec::new();
    for _ in 0..6 {
        sensors.push(sensor(""));
    }
    sensors[0].motion = None;
    sensors[1].cpi = Some(800);
    sensors[2].auto_mouse_layer = Some(3);
    let (devices, processors) = expand_pmw3360_device(sensors, &chip(ChipSeries::Rp2040)).unwrap();
    let mut channels = Vec::new();
    for device in &devices {
        match &device.platform {
            Platform::Rp2040 { dma_tx, dma_rx } => {
                channels.push(dma_tx.clone());
                channels.push(dma_rx.clone());
            }
            Platform::Nrf52 => panic!(),
        }
    }
    assert_eq!(channels[0], "DMA_CH2");
    assert_eq!(channels[1], "DMA_CH3");
    assert_eq!(channels[10], "DMA_CH12");
    assert_eq!(channels[11], "DMA_CH13");
    channels.sort();
    channels.dedup();
    assert_eq!(channels.len(), 12);
    assert_eq!(devices[0].motion, None);
    assert_eq!(devices[1].res_cpi, 800);
    assert_eq!(processors[2].auto_mouse, Some((3, 600)));
}

#[test]
fn single_plans() {
    let plan = plan_device(&sensor("x"), 0, &chip(ChipSeries::Nrf52), "BUS".to_string()).unwrap();
    assert_eq!(plan.spi_instance, "BUS");
    let mut bare = sensor("x");
    bare.spi.cs = None;
    assert!(plan_device(&bare, 0, &chip(ChipSeries::Nrf52), "BUS".to_string()).is_none());
    assert_eq!(plan_processor(&sensor(""), 10).var_name, "pmw3360_10_processor");
}

#[test]
fn decimal_numerals() {
    for n in [0usize, 7, 10, 99, 100, 1234567890, usize::MAX] {
        let mut text = "n".to_string();
        append_decimal(&mut text, n);
        assert_eq!(text, format!("n{}", n));
    }
}
