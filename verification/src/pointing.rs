//! Pointing device features for trackballs and other pointing devices.
//!
//! This module provides runtime state and configuration for advanced pointing device features:
//! - Scroll mode (toggle/momentary)
//! - CPI switching (software-based scaling)
//! - Drag lock
//! - Sniper mode (low CPI for precision)
//! - Angle snapping
//! - Gesture detection

use vstd::prelude::*;

verus! {

/// Runtime state for pointing device features.
/// This state is shared between the keyboard (which handles keycodes) and
/// the pointing device processor (which applies the features).
#[derive(Clone, Copy, Debug)]
pub struct PointingState {
    /// Toggle state for scroll mode
    pub scroll_mode: bool,
    /// Momentary state for scroll mode (held key)
    pub scroll_momentary: bool,
    /// Sniper mode active (momentary low CPI)
    pub sniper_mode: bool,
    /// Toggle state for angle snapping
    pub angle_snap: bool,
    /// Momentary state for angle snapping
    pub angle_snap_momentary: bool,
    /// Which button is drag-locked (0-7), or None if no drag lock
    pub drag_lock_button: Option<u8>,
    /// Current CPI level index (0-3 for 4 preset levels)
    pub cpi_level: u8,
}

impl PointingState {
    /// Everything off, at the first CPI level.
    pub open spec fn initial() -> PointingState {
        PointingState {
            scroll_mode: false,
            scroll_momentary: false,
            sniper_mode: false,
            angle_snap: false,
            angle_snap_momentary: false,
            drag_lock_button: None,
            cpi_level: 0,
        }
    }

    /// Scroll mode is in effect where exactly one of toggle and held key says so.
    pub open spec fn scroll_active(self) -> bool {
        self.scroll_mode != self.scroll_momentary
    }

    /// Angle snapping is in effect where exactly one of toggle and held key says so.
    pub open spec fn angle_snap_active(self) -> bool {
        self.angle_snap != self.angle_snap_momentary
    }

    /// Create a new PointingState with default values
    pub fn new() -> (state: Self)
        ensures
            state == PointingState::initial(),
    {
        PointingState {
            scroll_mode: false,
            scroll_momentary: false,
            sniper_mode: false,
            angle_snap: false,
            angle_snap_momentary: false,
            drag_lock_button: None,
            cpi_level: 0,
        }
    }

    /// Returns true if effective scroll mode is active (toggle XOR momentary)
    #[inline]
    pub fn is_scroll_active(&self) -> (active: bool)
        ensures
            active == self.scroll_active(),
    {
        self.scroll_mode ^ self.scroll_momentary
    }

    /// Returns true if effective angle snap is active (toggle XOR momentary)
    #[inline]
    pub fn is_angle_snap_active(&self) -> (active: bool)
        ensures
            active == self.angle_snap_active(),
    {
        self.angle_snap ^ self.angle_snap_momentary
    }
}

impl Default for PointingState {
    /// Everything off, at the first CPI level.
    fn default() -> (state: Self)
        ensures
            state == PointingState::initial(),
    {
        PointingState::new()
    }
}

/// Flipping the toggle, or pressing or letting go of the key, turns scroll mode
/// over; doing both leaves it as it was.
pub proof fn law_scroll_toggle_and_key(state: PointingState)
    ensures
        ({
            let toggled = PointingState { scroll_mode: !state.scroll_mode, ..state };
            let keyed = PointingState { scroll_momentary: !state.scroll_momentary, ..state };
            let both = PointingState { scroll_momentary: !state.scroll_momentary, ..toggled };
            &&& toggled.scroll_active() == !state.scroll_active()
            &&& keyed.scroll_active() == !state.scroll_active()
            &&& both.scroll_active() == state.scroll_active()
        }),
{
}

/// Flipping the toggle, or pressing or letting go of the key, turns angle snapping
/// over; doing both leaves it as it was.
pub proof fn law_angle_snap_toggle_and_key(state: PointingState)
    ensures
        ({
            let toggled = PointingState { angle_snap: !state.angle_snap, ..state };
            let keyed = PointingState {
                angle_snap_momentary: !state.angle_snap_momentary,
                ..state
            };
            let both = PointingState {
                angle_snap_momentary: !state.angle_snap_momentary,
                ..toggled
            };
            &&& toggled.angle_snap_active() == !state.angle_snap_active()
            &&& keyed.angle_snap_active() == !state.angle_snap_active()
            &&& both.angle_snap_active() == state.angle_snap_active()
        }),
{
}

/// Acceleration curve types for pointer movement
#[derive(Clone, Copy, Debug, PartialEq, Eq, Structural)]
pub enum AccelerationCurve {
    /// Linear acceleration (constant multiplier)
    Linear,
    /// Ease-in: slow start, fast end
    EaseIn,
    /// Ease-out: fast start, slow end
    EaseOut,
    /// S-curve: slow-fast-slow
    SCurve,
}

impl Default for AccelerationCurve {
    /// The linear curve.
    fn default() -> (curve: Self)
        ensures
            curve == AccelerationCurve::Linear,
    {
        AccelerationCurve::Linear
    }
}

/// Configuration for pointing device features.
/// These values are typically loaded from keyboard.toml.
#[derive(Clone, Copy, Debug)]
pub struct PointingConfig {
    /// CPI preset levels (4 levels)
    pub cpi_levels: [u16; 4],
    /// Default CPI level index
    pub default_cpi_index: u8,
    /// Divisor for scroll mode (higher = slower scroll)
    pub scroll_divisor: i16,
    /// Divisor for sniper mode (higher = slower/more precise)
    pub sniper_divisor: i16,
    /// Threshold ratio for angle snapping (e.g., 3 means need 3x movement to break snap)
    pub angle_snap_ratio: i16,
    /// Whether gesture detection is enabled
    pub gesture_enabled: bool,
    /// Minimum accumulated movement to trigger a gesture
    pub gesture_threshold: i16,
    /// Timeout in milliseconds for gesture detection
    pub gesture_timeout_ms: u16,
    /// Acceleration curve type
    pub acceleration_curve: AccelerationCurve,
}

impl PointingConfig {
    /// Four levels from 400 to 1600 CPI, starting at 800, with gestures off.
    pub open spec fn initial() -> PointingConfig {
        PointingConfig {
            cpi_levels: [400, 800, 1200, 1600],
            default_cpi_index: 1,
            scroll_divisor: 4,
            sniper_divisor: 4,
            angle_snap_ratio: 3,
            gesture_enabled: false,
            gesture_threshold: 50,
            gesture_timeout_ms: 200,
            acceleration_curve: AccelerationCurve::Linear,
        }
    }

    /// Create a new PointingConfig with default values
    pub fn new() -> (config: Self)
        ensures
            config == PointingConfig::initial(),
    {
        let cpi_levels: [u16; 4] = [400, 800, 1200, 1600];
        assert(cpi_levels@ =~= PointingConfig::initial().cpi_levels@);
        PointingConfig {
            cpi_levels,
            default_cpi_index: 1,
            scroll_divisor: 4,
            sniper_divisor: 4,
            angle_snap_ratio: 3,
            gesture_enabled: false,
            gesture_threshold: 50,
            gesture_timeout_ms: 200,
            acceleration_curve: AccelerationCurve::Linear,
        }
    }
}

impl Default for PointingConfig {
    /// The same as `PointingConfig::new`.
    fn default() -> (config: Self)
        ensures
            config == PointingConfig::initial(),
    {
        PointingConfig::new()
    }
}

/// Gesture types that can be detected
#[derive(Clone, Copy, Debug, PartialEq, Eq, Structural)]
pub enum Gesture {
    /// Swipe left
    Left,
    /// Swipe right
    Right,
    /// Swipe up
    Up,
    /// Swipe down
    Down,
}

/// The distance of `v` from zero.
pub open spec fn magnitude(v: int) -> int {
    if v < 0 {
        -v
    } else {
        v
    }
}

/// Whether movement by `main` along one axis, with `cross` along the other, is a
/// swipe along the first: at least the threshold, and more than one and a half times
/// the other.
pub open spec fn swipes(main: int, cross: int, threshold: int) -> bool {
    magnitude(main) >= threshold && magnitude(main) * 2 > magnitude(cross) * 3
}

/// The gesture that accumulated movement amounts to. X runs right, Y runs down.
pub open spec fn gesture_of(acc_x: int, acc_y: int, threshold: int) -> Option<Gesture> {
    if swipes(acc_x, acc_y, threshold) {
        if acc_x > 0 {
            Some(Gesture::Right)
        } else {
            Some(Gesture::Left)
        }
    } else if swipes(acc_y, acc_x, threshold) {
        if acc_y > 0 {
            Some(Gesture::Down)
        } else {
            Some(Gesture::Up)
        }
    } else {
        None
    }
}

/// Whether the products that `swipes` compares, where it comes to compare them,
/// fit in an `i32`.
pub open spec fn swipe_fits(main: int, cross: int, threshold: int) -> bool {
    magnitude(main) >= threshold ==> magnitude(main) * 2 <= i32::MAX && magnitude(cross) * 3
        <= i32::MAX
}

/// The state of a gesture detector, as a mathematical value.
pub ghost struct GestureState {
    /// Accumulated X movement
    pub acc_x: int,
    /// Accumulated Y movement
    pub acc_y: int,
    /// Whether a gesture is being tracked
    pub tracking: bool,
    /// Start time of the current gesture
    pub start_ticks: u64,
}

impl GestureState {
    /// Nothing tracked.
    pub open spec fn initial() -> GestureState {
        GestureState { acc_x: 0, acc_y: 0, tracking: false, start_ticks: 0 }
    }

    /// The state with a movement added. The first movement begins a gesture.
    pub open spec fn moved(self, dx: int, dy: int, now: u64) -> GestureState {
        if self.tracking {
            GestureState { acc_x: self.acc_x + dx, acc_y: self.acc_y + dy, ..self }
        } else {
            GestureState { acc_x: dx, acc_y: dy, tracking: true, start_ticks: now }
        }
    }

    /// Whether the time for the gesture is over: more than the timeout has passed
    /// since its start. A time before the start counts as none passed.
    pub open spec fn timed_out(self, now: u64, config: PointingConfig) -> bool {
        now - self.start_ticks > config.gesture_timeout_ms
    }

    /// The gesture that has been made.
    pub open spec fn gesture(self, config: PointingConfig) -> Option<Gesture> {
        gesture_of(self.acc_x, self.acc_y, config.gesture_threshold as int)
    }

    /// The state after a movement, and the gesture that the movement completes.
    pub open spec fn after_movement(self, dx: int, dy: int, now: u64, config: PointingConfig) -> (
        GestureState,
        Option<Gesture>,
    ) {
        let moved = self.moved(dx, dy, now);
        if !config.gesture_enabled {
            (self, None)
        } else if moved.timed_out(now, config) {
            (GestureState::initial(), moved.gesture(config))
        } else {
            (moved, None)
        }
    }

    /// The state after a look at the time without movement, and the gesture that is
    /// over by then.
    pub open spec fn after_idle(self, now: u64, config: PointingConfig) -> (
        GestureState,
        Option<Gesture>,
    ) {
        if self.tracking && config.gesture_enabled && self.timed_out(now, config) {
            (GestureState::initial(), self.gesture(config))
        } else {
            (self, None)
        }
    }

    /// The accumulated movement fits in an `i32`.
    pub open spec fn fits(self) -> bool {
        i32::MIN <= self.acc_x <= i32::MAX && i32::MIN <= self.acc_y <= i32::MAX
    }

    /// The accumulated movement can be evaluated within an `i32`.
    pub open spec fn evaluable(self, config: PointingConfig) -> bool {
        let threshold = config.gesture_threshold as int;
        &&& magnitude(self.acc_x) <= i32::MAX
        &&& magnitude(self.acc_y) <= i32::MAX
        &&& swipe_fits(self.acc_x, self.acc_y, threshold)
        &&& !swipes(self.acc_x, self.acc_y, threshold) ==> swipe_fits(
            self.acc_y,
            self.acc_x,
            threshold,
        )
    }
}

/// Gesture detector for tracking movement and detecting swipe gestures
#[derive(Clone, Copy, Debug)]
pub struct GestureDetector {
    /// Accumulated X movement
    acc_x: i32,
    /// Accumulated Y movement
    acc_y: i32,
    /// Whether we're currently tracking a gesture
    tracking: bool,
    /// Start time of current gesture (in ticks)
    start_ticks: u64,
}

impl View for GestureDetector {
    type V = GestureState;

    closed spec fn view(&self) -> GestureState {
        GestureState {
            acc_x: self.acc_x as int,
            acc_y: self.acc_y as int,
            tracking: self.tracking,
            start_ticks: self.start_ticks,
        }
    }
}

impl Default for GestureDetector {
    /// The same as `GestureDetector::new`.
    fn default() -> (detector: Self)
        ensures
            detector@ == GestureState::initial(),
    {
        GestureDetector::new()
    }
}

fn abs(v: i32) -> (m: i32)
    requires
        v > i32::MIN,
    ensures
        m == magnitude(v as int),
{
    if v < 0 {
        -v
    } else {
        v
    }
}

impl GestureDetector {
    /// Create a new gesture detector
    pub fn new() -> (detector: Self)
        ensures
            detector@ == GestureState::initial(),
    {
        GestureDetector { acc_x: 0, acc_y: 0, tracking: false, start_ticks: 0 }
    }

    /// Reset the gesture detector
    pub fn reset(&mut self)
        ensures
            final(self)@ == GestureState::initial(),
    {
        self.acc_x = 0;
        self.acc_y = 0;
        self.tracking = false;
        self.start_ticks = 0;
    }

    /// Accumulate movement and check for gesture.
    /// Returns Some(Gesture) if a gesture is detected.
    ///
    /// # Arguments
    /// * `dx` - X movement delta
    /// * `dy` - Y movement delta
    /// * `current_ticks` - Current time in ticks (milliseconds)
    /// * `config` - Pointing configuration
    ///
    /// The movement is evaluated, and the detector reset, once the time for the
    /// gesture is over. The sums, and then the products of the evaluation, have to
    /// fit in an `i32`.
    pub fn accumulate(
        &mut self,
        dx: i16,
        dy: i16,
        current_ticks: u64,
        config: &PointingConfig,
    ) -> (gesture: Option<Gesture>)
        requires
            config.gesture_enabled ==> {
                let moved = old(self)@.moved(dx as int, dy as int, current_ticks);
                moved.fits() && (moved.timed_out(current_ticks, *config) ==> moved.evaluable(
                    *config,
                ))
            },
        ensures
            ({
                let moved = old(self)@.moved(dx as int, dy as int, current_ticks);
                if !config.gesture_enabled {
                    final(self)@ == old(self)@ && gesture is None
                } else if moved.timed_out(current_ticks, *config) {
                    final(self)@ == GestureState::initial() && gesture == moved.gesture(*config)
                } else {
                    final(self)@ == moved && gesture is None
                }
            }),
            (final(self)@, gesture) == old(self)@.after_movement(
                dx as int,
                dy as int,
                current_ticks,
                *config,
            ),
    {
        if !config.gesture_enabled {
            return None;
        }
        if !self.tracking {
            self.tracking = true;
            self.start_ticks = current_ticks;
            self.acc_x = 0;
            self.acc_y = 0;
        }
        self.acc_x = self.acc_x + dx as i32;
        self.acc_y = self.acc_y + dy as i32;
        let elapsed: u64 = current_ticks.saturating_sub(self.start_ticks);
        if elapsed > config.gesture_timeout_ms as u64 {
            let gesture = self.evaluate_gesture(config);
            self.reset();
            return gesture;
        }
        None
    }

    /// Called when no movement detected - evaluate accumulated movement
    pub fn on_idle(&mut self, current_ticks: u64, config: &PointingConfig) -> (gesture: Option<
        Gesture,
    >)
        requires
            old(self)@.tracking && config.gesture_enabled && old(self)@.timed_out(
                current_ticks,
                *config,
            ) ==> old(self)@.evaluable(*config),
        ensures
            if old(self)@.tracking && config.gesture_enabled && old(self)@.timed_out(
                current_ticks,
                *config,
            ) {
                final(self)@ == GestureState::initial() && gesture == old(self)@.gesture(*config)
            } else {
                final(self)@ == old(self)@ && gesture is None
            },
            (final(self)@, gesture) == old(self)@.after_idle(current_ticks, *config),
    {
        if !self.tracking || !config.gesture_enabled {
            return None;
        }
        let elapsed: u64 = current_ticks.saturating_sub(self.start_ticks);
        if elapsed > config.gesture_timeout_ms as u64 {
            let gesture = self.evaluate_gesture(config);
            self.reset();
            return gesture;
        }
        None
    }

    /// Evaluate accumulated movement to determine gesture
    pub fn evaluate_gesture(&self, config: &PointingConfig) -> (gesture: Option<Gesture>)
        requires
            self@.evaluable(*config),
        ensures
            gesture == self@.gesture(*config),
    {
        let threshold: i32 = config.gesture_threshold as i32;
        let abs_x: i32 = abs(self.acc_x);
        let abs_y: i32 = abs(self.acc_y);
        // The dominant axis has to be more than 3/2 of the other.
        let ratio_threshold: i32 = 3;
        if abs_x >= threshold && abs_x * 2 > abs_y * ratio_threshold {
            if self.acc_x > 0 {
                Some(Gesture::Right)
            } else {
                Some(Gesture::Left)
            }
        } else if abs_y >= threshold && abs_y * 2 > abs_x * ratio_threshold {
            if self.acc_y > 0 {
                Some(Gesture::Down)
            } else {
                Some(Gesture::Up)
            }
        } else {
            None
        }
    }
}

/// The gesture in the opposite direction.
pub open spec fn opposite(gesture: Gesture) -> Gesture {
    match gesture {
        Gesture::Left => Gesture::Right,
        Gesture::Right => Gesture::Left,
        Gesture::Up => Gesture::Down,
        Gesture::Down => Gesture::Up,
    }
}

/// The gesture with its axes exchanged.
pub open spec fn transposed(gesture: Gesture) -> Gesture {
    match gesture {
        Gesture::Left => Gesture::Up,
        Gesture::Right => Gesture::Down,
        Gesture::Up => Gesture::Left,
        Gesture::Down => Gesture::Right,
    }
}

/// The opposite movement makes the opposite gesture.
pub proof fn law_opposite_movement(acc_x: int, acc_y: int, threshold: int)
    ensures
        gesture_of(-acc_x, -acc_y, threshold) == match gesture_of(acc_x, acc_y, threshold) {
            Some(gesture) => Some(opposite(gesture)),
            None => None,
        },
{
}

/// Exchanging the axes of the movement exchanges those of the gesture: neither
/// axis is preferred to the other.
pub proof fn law_axes_on_par(acc_x: int, acc_y: int, threshold: int)
    ensures
        gesture_of(acc_y, acc_x, threshold) == match gesture_of(acc_x, acc_y, threshold) {
            Some(gesture) => Some(transposed(gesture)),
            None => None,
        },
{
}

/// A gesture is made exactly where one axis reaches the threshold and dominates the
/// other by more than one and a half times.
pub proof fn law_gesture_needs_dominant_axis(acc_x: int, acc_y: int, threshold: int)
    ensures
        gesture_of(acc_x, acc_y, threshold) is Some <==> swipes(acc_x, acc_y, threshold)
            || swipes(acc_y, acc_x, threshold),
        !(swipes(acc_x, acc_y, threshold) && swipes(acc_y, acc_x, threshold)),
{
}

/// While a gesture is tracked, two movements add up to the one movement that is
/// their sum.
pub proof fn law_movements_add_up(
    state: GestureState,
    dx1: int,
    dy1: int,
    now1: u64,
    dx2: int,
    dy2: int,
    now2: u64,
)
    ensures
        state.moved(dx1, dy1, now1).moved(dx2, dy2, now2) == state.moved(dx1 + dx2, dy1 + dy2, now1),
{
}

} // verus!
