//! Turns movement into mouse reports, with all pointing features applied.

use crate::arith::{
    at_least_one, clamp_to_i16, clamp_to_i8, clamped, magnitude_of, quotient,
};
use crate::clock::{duration_as_millis, duration_since, now_not_before, TICKS_PER_MILLI};
use crate::event::{Axis, AxisEvent, Event};
use crate::pointing::{magnitude, PointingConfig, PointingState};
use vstd::prelude::*;

verus! {

/// Auto mouse layer configuration
#[derive(Clone, Copy, Debug, PartialEq, Eq, Structural)]
pub struct AutoMouseConfig {
    /// Layer to activate when trackball moves
    pub layer: u8,
    /// Timeout in milliseconds before deactivating the layer
    pub timeout_ms: u32,
}

/// A mouse report: pressed buttons as bits, and relative movement.
#[derive(Clone, Copy, Debug, PartialEq, Eq, Structural)]
pub struct MouseReport {
    pub buttons: u8,
    pub x: i8,
    pub y: i8,
    /// Scroll down (negative) or up (positive) this many units
    pub wheel: i8,
    /// Scroll left (negative) or right (positive) this many units
    pub pan: i8,
}

/// What becomes of an event after this processor.
#[derive(Debug)]
pub enum ProcessResult<T> {
    /// The event has been dealt with.
    Stop,
    /// The event goes on to the next processor.
    Continue(Event<T>),
}

/// What processing an event comes to, in the order in which the host does it.
#[derive(Debug)]
pub struct Outcome<T> {
    /// The layer to deactivate.
    pub deactivate: Option<u8>,
    /// The layer to activate.
    pub activate: Option<u8>,
    /// The report to send.
    pub report: Option<MouseReport>,
    pub result: ProcessResult<T>,
}

/// The CPI level in effect: the last one, if the index is out of range.
pub open spec fn effective_level(level: u8) -> int {
    if level < 4 {
        level as int
    } else {
        3
    }
}

/// The scale of a CPI level over the first one, in percent. A scale that a movement
/// cannot take counts as the largest that it can.
pub open spec fn cpi_scale(config: PointingConfig, level: u8) -> int {
    clamped(
        (config.cpi_levels@[effective_level(level)] as int * 100) / at_least_one(
            config.cpi_levels@[0] as int,
        ),
        0,
        i16::MAX as int,
    )
}

/// `v` scaled by a percentage.
pub open spec fn scaled(v: int, percent: int) -> int {
    clamped(quotient(v * percent, 100), i16::MIN as int, i16::MAX as int)
}

/// Movement with the minor axis dropped, where the other is more than `ratio`
/// times as large.
pub open spec fn snapped(x: int, y: int, ratio: int) -> (int, int) {
    if magnitude(x) > magnitude(y) * ratio {
        (x, 0)
    } else if magnitude(y) > magnitude(x) * ratio {
        (0, y)
    } else {
        (x, y)
    }
}

/// Movement with all pointing features applied: snapped, then scaled to the CPI
/// level, then divided in sniper mode.
pub open spec fn featured(state: PointingState, config: PointingConfig, x: int, y: int) -> (
    int,
    int,
) {
    let (x1, y1) = if state.angle_snap_active() {
        snapped(x, y, at_least_one(config.angle_snap_ratio as int))
    } else {
        (x, y)
    };
    let percent = cpi_scale(config, state.cpi_level);
    let (x2, y2) = (scaled(x1, percent), scaled(y1, percent));
    if state.sniper_mode {
        let divisor = at_least_one(config.sniper_divisor as int);
        (quotient(x2, divisor), quotient(y2, divisor))
    } else {
        (x2, y2)
    }
}

/// The button bits of the drag lock.
pub open spec fn drag_lock_bits(state: PointingState) -> u8 {
    match state.drag_lock_button {
        Some(button) => 1u8 << button,
        None => 0,
    }
}

/// `v` as it fits in a report.
pub open spec fn report_value(v: int) -> i8 {
    clamped(v, i8::MIN as int, i8::MAX as int) as i8
}

/// The report that a movement comes to: scrolling in scroll mode, else movement of
/// the cursor.
pub open spec fn report_of(
    state: PointingState,
    config: PointingConfig,
    x: int,
    y: int,
) -> MouseReport {
    let (fx, fy) = featured(state, config, x, y);
    let buttons = drag_lock_bits(state);
    if state.scroll_active() {
        let divisor = at_least_one(config.scroll_divisor as int);
        MouseReport {
            buttons,
            x: 0,
            y: 0,
            wheel: report_value(quotient(-fy, divisor)),
            pan: report_value(quotient(fx, divisor)),
        }
    } else {
        MouseReport { buttons, x: report_value(fx), y: report_value(fy), wheel: 0, pan: 0 }
    }
}

/// Whether a movement can be reported. Where it scrolls, it is negated, which has to
/// fit in an `i16`; a locked button has to be one of eight.
pub open spec fn reportable(state: PointingState, config: PointingConfig, x: int, y: int) -> bool {
    &&& state.scroll_active() ==> featured(state, config, x, y).1 != i16::MIN
    &&& state.drag_lock_button matches Some(button) ==> button < 8
}

/// The value of an axis: that of the last event for it, or zero without any.
pub open spec fn axis_value(axes: Seq<AxisEvent>, axis: Axis) -> i16
    decreases axes.len(),
{
    if axes.len() == 0 {
        0
    } else if axes.last().axis == axis {
        axes.last().value
    } else {
        axis_value(axes.drop_last(), axis)
    }
}

/// The state of a processor, as a mathematical value.
pub ghost struct ProcessorState {
    pub auto_mouse: Option<AutoMouseConfig>,
    pub auto_mouse_active: bool,
    pub last_motion_time: Option<u64>,
    pub pointing_state: PointingState,
    pub pointing_config: PointingConfig,
}

impl ProcessorState {
    /// A new processor.
    pub open spec fn fresh(
        auto_mouse: Option<AutoMouseConfig>,
        pointing_state: PointingState,
        pointing_config: PointingConfig,
    ) -> ProcessorState {
        ProcessorState {
            auto_mouse,
            auto_mouse_active: false,
            last_motion_time: None,
            pointing_state,
            pointing_config,
        }
    }

    /// The auto mouse layer is active exactly while a time of last motion is kept,
    /// and only where one is configured.
    pub open spec fn wf(self) -> bool {
        &&& self.auto_mouse_active == (self.last_motion_time is Some)
        &&& self.auto_mouse_active ==> self.auto_mouse is Some
    }

    /// The last motion does not lie in the future of `now`.
    pub open spec fn not_after(self, now: u64) -> bool {
        self.last_motion_time matches Some(last) ==> last <= now
    }

    /// Whether the auto mouse layer has been without motion for its timeout.
    pub open spec fn layer_timed_out(self, now: u64) -> bool {
        &&& self.auto_mouse is Some
        &&& self.auto_mouse_active
        &&& self.last_motion_time matches Some(last) && (now - last) / TICKS_PER_MILLI as int
            >= self.auto_mouse->0.timeout_ms
    }

    /// The processor with a new pointing state, if there is one.
    pub open spec fn signalled(self, signal: Option<PointingState>) -> ProcessorState {
        match signal {
            Some(pointing_state) => ProcessorState { pointing_state, ..self },
            None => self,
        }
    }

    /// The processor after its timeout check, and the layer to deactivate.
    pub open spec fn timeout_checked(self, now: u64) -> (ProcessorState, Option<u8>) {
        if self.layer_timed_out(now) {
            (
                ProcessorState { auto_mouse_active: false, last_motion_time: None, ..self },
                Some(self.auto_mouse->0.layer),
            )
        } else {
            (self, None)
        }
    }

    /// The processor after motion, and the layer to activate.
    pub open spec fn activated(self, now: u64) -> (ProcessorState, Option<u8>) {
        match self.auto_mouse {
            Some(config) => (
                ProcessorState { auto_mouse_active: true, last_motion_time: Some(now), ..self },
                if self.auto_mouse_active {
                    None
                } else {
                    Some(config.layer)
                },
            ),
            None => (self, None),
        }
    }

    /// Whether an event can be processed: its movement, if it has any, can be
    /// reported.
    pub open spec fn processable<T>(self, signal: Option<PointingState>, event: Event<T>) -> bool {
        match event {
            Event::Joystick(axes) => reportable(
                self.signalled(signal).pointing_state,
                self.pointing_config,
                axis_value(axes@, Axis::X) as int,
                axis_value(axes@, Axis::Y) as int,
            ),
            Event::Other(_) => true,
        }
    }

    /// The processor after an event, and what comes of the event.
    pub open spec fn processed<T>(
        self,
        signal: Option<PointingState>,
        event: Event<T>,
        checked_at: u64,
        moved_at: u64,
    ) -> (ProcessorState, Outcome<T>) {
        let (checked, deactivate) = self.signalled(signal).timeout_checked(checked_at);
        match event {
            Event::Joystick(axes) => {
                let x = axis_value(axes@, Axis::X);
                let y = axis_value(axes@, Axis::Y);
                let (moved, activate) = if x != 0 || y != 0 {
                    checked.activated(moved_at)
                } else {
                    (checked, None)
                };
                let report = report_of(
                    moved.pointing_state,
                    moved.pointing_config,
                    x as int,
                    y as int,
                );
                (
                    moved,
                    Outcome {
                        deactivate,
                        activate,
                        report: Some(report),
                        result: ProcessResult::Stop,
                    },
                )
            },
            Event::Other(_) => (
                checked,
                Outcome {
                    deactivate,
                    activate: None,
                    report: None,
                    result: ProcessResult::Continue(event),
                },
            ),
        }
    }
}

/// PMW3610 Processor that converts motion events to mouse reports
#[derive(Debug)]
pub struct Pmw3610Processor {
    /// Auto mouse layer configuration
    auto_mouse: Option<AutoMouseConfig>,
    /// Whether auto mouse layer is currently active
    auto_mouse_active: bool,
    /// Last motion timestamp for auto mouse layer timeout
    last_motion_time: Option<u64>,
    /// Current pointing device state (scroll mode, CPI level, etc.)
    pointing_state: PointingState,
    /// Pointing device configuration
    pointing_config: PointingConfig,
}

impl View for Pmw3610Processor {
    type V = ProcessorState;

    closed spec fn view(&self) -> ProcessorState {
        ProcessorState {
            auto_mouse: self.auto_mouse,
            auto_mouse_active: self.auto_mouse_active,
            last_motion_time: self.last_motion_time,
            pointing_state: self.pointing_state,
            pointing_config: self.pointing_config,
        }
    }
}

impl Pmw3610Processor {
    /// Create a new PMW3610 processor with default settings
    pub fn new() -> (processor: Self)
        ensures
            processor@ == ProcessorState::fresh(
                None,
                PointingState::initial(),
                PointingConfig::initial(),
            ),
            processor@.wf(),
    {
        Pmw3610Processor {
            auto_mouse: None,
            auto_mouse_active: false,
            last_motion_time: None,
            pointing_state: PointingState::new(),
            pointing_config: PointingConfig::new(),
        }
    }

    /// Create a new PMW3610 processor with auto mouse layer support
    pub fn with_auto_mouse(auto_mouse_layer: u8, auto_mouse_timeout_ms: u32) -> (processor: Self)
        ensures
            processor@ == ProcessorState::fresh(
                Some(
                    AutoMouseConfig { layer: auto_mouse_layer, timeout_ms: auto_mouse_timeout_ms },
                ),
                PointingState::initial(),
                PointingConfig::initial(),
            ),
            processor@.wf(),
    {
        Pmw3610Processor {
            auto_mouse: Some(
                AutoMouseConfig { layer: auto_mouse_layer, timeout_ms: auto_mouse_timeout_ms },
            ),
            auto_mouse_active: false,
            last_motion_time: None,
            pointing_state: PointingState::new(),
            pointing_config: PointingConfig::new(),
        }
    }

    /// Create a new PMW3610 processor with pointing configuration
    pub fn with_pointing_config(pointing_config: PointingConfig) -> (processor: Self)
        ensures
            processor@ == ProcessorState::fresh(
                None,
                PointingState {
                    cpi_level: pointing_config.default_cpi_index,
                    ..PointingState::initial()
                },
                pointing_config,
            ),
            processor@.wf(),
    {
        let mut state = PointingState::new();
        state.cpi_level = pointing_config.default_cpi_index;
        Pmw3610Processor {
            auto_mouse: None,
            auto_mouse_active: false,
            last_motion_time: None,
            pointing_state: state,
            pointing_config,
        }
    }

    /// Create a new PMW3610 processor with auto mouse layer and pointing configuration
    pub fn with_auto_mouse_and_pointing_config(
        auto_mouse_layer: u8,
        auto_mouse_timeout_ms: u32,
        pointing_config: PointingConfig,
    ) -> (processor: Self)
        ensures
            processor@ == ProcessorState::fresh(
                Some(
                    AutoMouseConfig { layer: auto_mouse_layer, timeout_ms: auto_mouse_timeout_ms },
                ),
                PointingState {
                    cpi_level: pointing_config.default_cpi_index,
                    ..PointingState::initial()
                },
                pointing_config,
            ),
            processor@.wf(),
    {
        let mut state = PointingState::new();
        state.cpi_level = pointing_config.default_cpi_index;
        Pmw3610Processor {
            auto_mouse: Some(
                AutoMouseConfig { layer: auto_mouse_layer, timeout_ms: auto_mouse_timeout_ms },
            ),
            auto_mouse_active: false,
            last_motion_time: None,
            pointing_state: state,
            pointing_config,
        }
    }

    /// Generate a mouse report with all pointing features applied
    pub fn generate_report(&self, x: i16, y: i16) -> (report: MouseReport)
        requires
            reportable(self@.pointing_state, self@.pointing_config, x as int, y as int),
        ensures
            report == report_of(self@.pointing_state, self@.pointing_config, x as int, y as int),
    {
        let (x, y) = self.apply_pointing_features(x, y);
        if self.pointing_state.is_scroll_active() {
            // Scroll mode: convert movement to wheel/pan
            let divisor: i16 = self.pointing_config.scroll_divisor.max(1);
            MouseReport {
                buttons: self.get_drag_lock_buttons(),
                x: 0,
                y: 0,
                wheel: clamp_to_i8(-y / divisor),
                pan: clamp_to_i8(x / divisor),
            }
        } else {
            // Cursor mode
            MouseReport {
                buttons: self.get_drag_lock_buttons(),
                x: clamp_to_i8(x),
                y: clamp_to_i8(y),
                wheel: 0,
                pan: 0,
            }
        }
    }

    /// Apply all pointing features (CPI scaling, sniper mode, angle snapping)
    pub fn apply_pointing_features(&self, x: i16, y: i16) -> (movement: (i16, i16))
        ensures
            (movement.0 as int, movement.1 as int) == featured(
                self@.pointing_state,
                self@.pointing_config,
                x as int,
                y as int,
            ),
    {
        // Apply angle snapping first (before scaling)
        let (x, y) = if self.pointing_state.is_angle_snap_active() {
            self.apply_angle_snap(x, y)
        } else {
            (x, y)
        };
        // Apply CPI scaling
        let scale: i16 = self.get_cpi_scale();
        let x: i16 = scale_movement(x, scale);
        let y: i16 = scale_movement(y, scale);
        // Apply sniper mode (additional divisor)
        if self.pointing_state.sniper_mode {
            let divisor: i16 = self.pointing_config.sniper_divisor.max(1);
            (x / divisor, y / divisor)
        } else {
            (x, y)
        }
    }

    /// Get CPI scale factor as percentage (100 = 1x, 200 = 2x, etc.)
    pub fn get_cpi_scale(&self) -> (percent: i16)
        ensures
            percent == cpi_scale(self@.pointing_config, self@.pointing_state.cpi_level),
            percent >= 0,
    {
        let cpi_levels = &self.pointing_config.cpi_levels;
        let base_cpi: i32 = cpi_levels[0].max(1) as i32;
        let idx: usize = (self.pointing_state.cpi_level as usize).min(3);
        let target_cpi: i32 = cpi_levels[idx] as i32;
        let percent: i32 = (target_cpi * 100) / base_cpi;
        assert(percent >= 0) by (nonlinear_arith)
            requires
                target_cpi >= 0,
                base_cpi >= 1,
                percent == (target_cpi * 100) / base_cpi as int,
        ;
        clamp_to_i16(percent)
    }

    /// Apply angle snapping - lock movement to dominant axis
    pub fn apply_angle_snap(&self, x: i16, y: i16) -> (movement: (i16, i16))
        ensures
            (movement.0 as int, movement.1 as int) == snapped(
                x as int,
                y as int,
                at_least_one(self@.pointing_config.angle_snap_ratio as int),
            ),
    {
        let abs_x: i32 = magnitude_of(x);
        let abs_y: i32 = magnitude_of(y);
        let ratio: i32 = self.pointing_config.angle_snap_ratio.max(1) as i32;
        proof {
            assert(0 <= abs_x * ratio <= 0x8000 * 0x8000 && 0 <= abs_y * ratio <= 0x8000 * 0x8000)
                by (nonlinear_arith)
                requires
                    0 <= abs_x <= 0x8000,
                    0 <= abs_y <= 0x8000,
                    0 <= ratio <= 0x8000,
            ;
        }
        if abs_x > abs_y * ratio {
            (x, 0)
        } else if abs_y > abs_x * ratio {
            (0, y)
        } else {
            // Within threshold, don't snap
            (x, y)
        }
    }

    /// Get button state for drag lock
    pub fn get_drag_lock_buttons(&self) -> (buttons: u8)
        requires
            self@.pointing_state.drag_lock_button matches Some(button) ==> button < 8,
        ensures
            buttons == drag_lock_bits(self@.pointing_state),
    {
        match self.pointing_state.drag_lock_button {
            Some(button) => 1u8 << button,
            None => 0,
        }
    }

    /// Tells whether an event can be processed.
    pub fn can_process<T>(&self, signal: &Option<PointingState>, event: &Event<T>) -> (able: bool)
        ensures
            able == self@.processable(*signal, *event),
    {
        match event {
            Event::Joystick(axes) => {
                let (x, y) = read_axes(axes);
                let probe = Pmw3610Processor {
                    auto_mouse: None,
                    auto_mouse_active: false,
                    last_motion_time: None,
                    pointing_state: match signal {
                        Some(state) => *state,
                        None => self.pointing_state,
                    },
                    pointing_config: self.pointing_config,
                };
                probe.can_report(x, y)
            },
            Event::Other(_) => true,
        }
    }

    /// Tells whether a movement can be reported.
    pub fn can_report(&self, x: i16, y: i16) -> (able: bool)
        ensures
            able == reportable(
                self@.pointing_state,
                self@.pointing_config,
                x as int,
                y as int,
            ),
    {
        match self.pointing_state.drag_lock_button {
            Some(button) => if button >= 8 {
                return false;
            },
            None => {},
        }
        !self.pointing_state.is_scroll_active() || self.apply_pointing_features(x, y).1 != i16::MIN
    }

    /// Update pointing state from the signal
    pub fn update_pointing_state(&mut self, signal: Option<PointingState>)
        ensures
            final(self)@ == old(self)@.signalled(signal),
    {
        match signal {
            Some(state) => {
                self.pointing_state = state;
            },
            None => {},
        }
    }

    /// Check if auto mouse layer should be deactivated due to timeout, and hand out
    /// the layer if so
    pub fn check_auto_mouse_timeout(&mut self, now: u64) -> (deactivate: Option<u8>)
        requires
            old(self)@.not_after(now),
        ensures
            (final(self)@, deactivate) == old(self)@.timeout_checked(now),
    {
        match self.auto_mouse {
            Some(config) => {
                if self.auto_mouse_active {
                    match self.last_motion_time {
                        Some(last_time) => {
                            let millis: u64 = duration_as_millis(duration_since(now, last_time));
                            if millis >= config.timeout_ms as u64 {
                                self.auto_mouse_active = false;
                                self.last_motion_time = None;
                                return Some(config.layer);
                            }
                        },
                        None => {},
                    }
                }
                None
            },
            None => None,
        }
    }

    /// Activate auto mouse layer if configured, and hand out the layer if it was not
    /// active yet
    pub fn activate_auto_mouse(&mut self, now: u64) -> (activate: Option<u8>)
        ensures
            (final(self)@, activate) == old(self)@.activated(now),
    {
        match self.auto_mouse {
            Some(config) => {
                let activate: Option<u8> = if !self.auto_mouse_active {
                    self.auto_mouse_active = true;
                    Some(config.layer)
                } else {
                    None
                };
                self.last_motion_time = Some(now);
                activate
            },
            None => None,
        }
    }

    /// Processes an event at the present time. `signal` is the pointing state that
    /// the keyboard has sent since the last event, if it has sent one.
    pub fn process<T>(&mut self, signal: Option<PointingState>, event: Event<T>) -> (outcome: Outcome<
        T,
    >)
        requires
            old(self)@.processable(signal, event),
        ensures
            exists|checked_at: u64, moved_at: u64|
                {
                    &&& old(self)@.not_after(checked_at)
                    &&& checked_at <= moved_at
                    &&& (final(self)@, outcome) == #[trigger] old(self)@.processed(
                        signal,
                        event,
                        checked_at,
                        moved_at,
                    )
                },
            old(self)@.wf() ==> final(self)@.wf(),
    {
        let checked_at: u64 = now_not_before(self.last_motion_time);
        let moved_at: u64 = now_not_before(Some(checked_at));
        self.process_at(signal, event, checked_at, moved_at)
    }

    /// Processes an event, with the timeout checked at one time and motion noted at
    /// another.
    pub fn process_at<T>(
        &mut self,
        signal: Option<PointingState>,
        event: Event<T>,
        checked_at: u64,
        moved_at: u64,
    ) -> (outcome: Outcome<T>)
        requires
            old(self)@.processable(signal, event),
            old(self)@.not_after(checked_at),
        ensures
            (final(self)@, outcome) == old(self)@.processed(signal, event, checked_at, moved_at),
            old(self)@.wf() ==> final(self)@.wf(),
    {
        // Update pointing state from keyboard signal
        self.update_pointing_state(signal);
        // Always check for auto mouse timeout
        let deactivate: Option<u8> = self.check_auto_mouse_timeout(checked_at);
        match event {
            Event::Joystick(axes) => {
                let (x, y) = read_axes(&axes);
                // Activate auto mouse layer when motion is detected
                let activate: Option<u8> = if x != 0 || y != 0 {
                    self.activate_auto_mouse(moved_at)
                } else {
                    None
                };
                let report = self.generate_report(x, y);
                Outcome { deactivate, activate, report: Some(report), result: ProcessResult::Stop }
            },
            Event::Other(other) => Outcome {
                deactivate,
                activate: None,
                report: None,
                result: ProcessResult::Continue(Event::Other(other)),
            },
        }
    }
}

/// Scales movement by a percentage.
fn scale_movement(v: i16, percent: i16) -> (s: i16)
    ensures
        s == scaled(v as int, percent as int),
{
    proof {
        assert(-0x4000_0000 <= v * percent <= 0x4000_0000) by (nonlinear_arith)
            requires
                -0x8000 <= v <= 0x7fff,
                -0x8000 <= percent <= 0x7fff,
        ;
    }
    clamp_to_i16(v as i32 * percent as i32 / 100)
}

/// Reads the X and Y values out of axis events.
fn read_axes(axes: &[AxisEvent; 3]) -> (movement: (i16, i16))
    ensures
        movement.0 == axis_value(axes@, Axis::X),
        movement.1 == axis_value(axes@, Axis::Y),
{
    let mut x: i16 = 0;
    let mut y: i16 = 0;
    let mut i: usize = 0;
    while i < 3
        invariant
            i <= 3,
            x == axis_value(axes@.take(i as int), Axis::X),
            y == axis_value(axes@.take(i as int), Axis::Y),
        decreases 3 - i,
    {
        let axis_event = axes[i];
        match axis_event.axis {
            Axis::X => {
                x = axis_event.value;
            },
            Axis::Y => {
                y = axis_event.value;
            },
            _ => {},
        }
        i = i + 1;
        assert(axes@.take(i as int).drop_last() =~= axes@.take(i - 1));
    }
    assert(axes@.take(3) =~= axes@);
    (x, y)
}

} // verus!
