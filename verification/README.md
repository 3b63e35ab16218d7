# rmk_pointing

Verified pointing-device support for a keyboard firmware.

- `src/pmw3610/` is the driver of the PMW3610 motion sensor. The driver and the
  input device built on it are state machines: they hand out one bus, pin or timer
  action at a time and take in what came of it. `trace.rs`, `laws.rs` and
  `device_laws.rs` state what they come to.
- `src/processor.rs` turns movement into mouse reports: CPI levels, sniper mode,
  angle snapping, scrolling, drag lock and the auto mouse layer.
- `src/pointing.rs` holds the pointing state and configuration and the gesture
  detector.
- `src/pmw3360.rs` plans the initialisation code of PMW3360 sensors.
- `src/clock.rs` and `src/text.rs` hold what is trusted of `embassy-time` and of
  the standard library. Time is counted in microsecond ticks.
- `app/` performs the actions on `embedded-hal` hardware, connects the processor to
  a keymap and a report channel, and turns plans into tokens.
