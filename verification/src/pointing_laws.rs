//! What holds of the toggles and of gesture detection.

use crate::pointing::{Gesture, GestureState, PointingConfig, PointingState};
use vstd::prelude::*;

verus! {

/// With toggle and key both off, neither scroll mode nor angle snapping is in effect.
pub proof fn law_off_without_toggle_and_key(state: PointingState)
    ensures
        !state.scroll_mode && !state.scroll_momentary ==> !state.scroll_active(),
        !state.angle_snap && !state.angle_snap_momentary ==> !state.angle_snap_active(),
{
}

/// A new state has every feature off and the first CPI level selected.
pub proof fn law_new_state_is_off()
    ensures
        ({
            let s = PointingState::initial();
            &&& !s.scroll_mode && !s.scroll_momentary && !s.sniper_mode
            &&& !s.angle_snap && !s.angle_snap_momentary
            &&& s.drag_lock_button is None && s.cpi_level == 0
        }),
{
}

/// A new configuration has the CPI levels 400 to 1600 with the second selected, divides
/// by four, snaps at three to one and does not look for gestures.
pub proof fn law_new_configuration()
    ensures
        ({
            let c = PointingConfig::initial();
            &&& c.cpi_levels@[0] == 400 && c.cpi_levels@[1] == 800
            &&& c.cpi_levels@[2] == 1200 && c.cpi_levels@[3] == 1600
            &&& c.default_cpi_index == 1
            &&& c.scroll_divisor == 4 && c.sniper_divisor == 4 && c.angle_snap_ratio == 3
            &&& !c.gesture_enabled && c.gesture_threshold == 50 && c.gesture_timeout_ms == 200
            &&& c.acceleration_curve is Linear
        }),
{
}

/// A gesture names the one direction in which the movement reaches the configured
/// threshold and is more than one and a half times as long as it is along the other
/// axis, either way. X grows to the right and Y downwards.
pub proof fn law_gesture_directions(s: GestureState, config: PointingConfig)
    ensures
        ({
            let (x, y, t) = (s.acc_x, s.acc_y, config.gesture_threshold as int);
            let gesture = s.gesture(config);
            &&& gesture == Some(Gesture::Right) <==> x >= t && 2 * x > 3 * y && 2 * x > -3 * y
            &&& gesture == Some(Gesture::Left) <==> -x >= t && -2 * x > 3 * y && -2 * x > -3 * y
            &&& gesture == Some(Gesture::Down) <==> y >= t && 2 * y > 3 * x && 2 * y > -3 * x
            &&& gesture == Some(Gesture::Up) <==> -y >= t && -2 * y > 3 * x && -2 * y > -3 * x
        }),
{
}

/// More of the same movement makes the same gesture.
pub proof fn law_longer_swipe_is_same_gesture(
    s: GestureState,
    longer: GestureState,
    k: int,
    config: PointingConfig,
)
    requires
        k >= 1,
        longer.acc_x == k * s.acc_x,
        longer.acc_y == k * s.acc_y,
        s.gesture(config) is Some,
    ensures
        longer.gesture(config) == s.gesture(config),
{
    let (x, y) = (s.acc_x, s.acc_y);
    law_gesture_directions(s, config);
    law_gesture_directions(longer, config);
    assert forall|a: int, b: int| 2 * a > 3 * b implies 2 * #[trigger] (k * a) > 3 * #[trigger] (k
        * b) by {
        assert(2 * (k * a) - 3 * (k * b) == k * (2 * a - 3 * b)) by (nonlinear_arith);
        assert(k * (2 * a - 3 * b) > 0) by (nonlinear_arith)
            requires
                k >= 1,
                2 * a - 3 * b > 0,
        ;
    }
    assert(k * (-x) == -(k * x) && k * (-y) == -(k * y)) by (nonlinear_arith);
    assert((x > 0 ==> k * x >= x) && (x < 0 ==> -(k * x) >= -x)) by (nonlinear_arith)
        requires
            k >= 1,
    ;
    assert((y > 0 ==> k * y >= y) && (y < 0 ==> -(k * y) >= -y)) by (nonlinear_arith)
        requires
            k >= 1,
    ;
}

/// The first movement begins a gesture: it is all that counts, from this time on,
/// and completes nothing yet. Whatever the detector held before is forgotten.
pub proof fn law_first_movement_begins_gesture(
    s: GestureState,
    dx: int,
    dy: int,
    now: u64,
    config: PointingConfig,
)
    requires
        config.gesture_enabled,
        !s.tracking,
    ensures
        ({
            let (next, gesture) = s.after_movement(dx, dy, now, config);
            &&& next.tracking && next.start_ticks == now
            &&& next.acc_x == dx && next.acc_y == dy
            &&& gesture is None
        }),
{
}

/// The configured timeout, counted from the start, decides when a tracked gesture is
/// over. Up to the timeout itself a look at the time changes nothing and names no
/// gesture. Later it names the gesture that was made and leaves nothing tracked.
pub proof fn law_idle_evaluates_after_timeout(s: GestureState, now: u64, config: PointingConfig)
    requires
        config.gesture_enabled,
        s.tracking,
    ensures
        ({
            let (next, gesture) = s.after_idle(now, config);
            if now <= s.start_ticks + config.gesture_timeout_ms {
                next == s && gesture is None
            } else {
                &&& !next.tracking && next.acc_x == 0 && next.acc_y == 0 && next.start_ticks == 0
                &&& gesture == s.gesture(config)
            }
        }),
{
}

/// A movement within the timeout is added to those before it and names no gesture; the
/// start stays. A later one still counts: the gesture is that of all movement with it
/// included, and nothing is tracked any more.
pub proof fn law_movement_evaluates_after_timeout(
    s: GestureState,
    dx: int,
    dy: int,
    now: u64,
    config: PointingConfig,
)
    requires
        config.gesture_enabled,
        s.tracking,
    ensures
        ({
            let (next, gesture) = s.after_movement(dx, dy, now, config);
            let all = GestureState { acc_x: s.acc_x + dx, acc_y: s.acc_y + dy, ..s };
            if now <= s.start_ticks + config.gesture_timeout_ms {
                next == all && gesture is None
            } else {
                &&& !next.tracking && next.acc_x == 0 && next.acc_y == 0 && next.start_ticks == 0
                &&& gesture == all.gesture(config)
            }
        }),
{
}

/// With gesture detection disabled, nothing changes and no gesture is named.
pub proof fn law_disabled_detection_is_inert(
    s: GestureState,
    dx: int,
    dy: int,
    now: u64,
    config: PointingConfig,
)
    requires
        !config.gesture_enabled,
    ensures
        s.after_movement(dx, dy, now, config) == (s, None::<Gesture>),
        s.after_idle(now, config) == (s, None::<Gesture>),
{
}

/// Without a tracked gesture a look at the time changes nothing and names no gesture.
pub proof fn law_idle_without_gesture(s: GestureState, now: u64, config: PointingConfig)
    requires
        !s.tracking,
    ensures
        s.after_idle(now, config) == (s, None::<Gesture>),
{
}

/// A movement: its deltas and its time.
pub ghost struct Movement {
    pub dx: int,
    pub dy: int,
    pub at: u64,
}

/// The deltas of movements, summed up.
pub open spec fn total(moves: Seq<Movement>) -> (int, int)
    decreases moves.len(),
{
    if moves.len() == 0 {
        (0, 0)
    } else {
        let before = total(moves.drop_last());
        (before.0 + moves.last().dx, before.1 + moves.last().dy)
    }
}

impl GestureState {
    /// The state after movements, one after the other.
    pub open spec fn after_movements(self, moves: Seq<Movement>, config: PointingConfig) -> GestureState
        decreases moves.len(),
    {
        if moves.len() == 0 {
            self
        } else {
            let m = moves.last();
            self.after_movements(moves.drop_last(), config).after_movement(
                m.dx,
                m.dy,
                m.at,
                config,
            ).0
        }
    }
}

/// A swipe is the sum of its movements. Movements within the timeout of the first are
/// all tracked together, and the look at the time that finds the timeout passed names
/// the gesture of their sum, however the movement was split up.
pub proof fn law_swipe_is_sum_of_movements(
    s: GestureState,
    moves: Seq<Movement>,
    now: u64,
    config: PointingConfig,
)
    requires
        config.gesture_enabled,
        !s.tracking,
        moves.len() > 0,
        forall|i: int|
            0 <= i < moves.len() ==> (#[trigger] moves[i]).at <= moves[0].at
                + config.gesture_timeout_ms,
        now > moves[0].at + config.gesture_timeout_ms,
    ensures
        ({
            let swipe = s.after_movements(moves, config);
            let (x, y) = total(moves);
            &&& swipe.tracking && swipe.start_ticks == moves[0].at
            &&& swipe.acc_x == x && swipe.acc_y == y
            &&& swipe.after_idle(now, config).1 == swipe.gesture(config)
        }),
    decreases moves.len(),
{
    let before = moves.drop_last();
    let m = moves.last();
    if moves.len() == 1 {
        assert(s.after_movements(before, config) == s);
        assert(total(before) == (0int, 0int));
        law_first_movement_begins_gesture(s, m.dx, m.dy, m.at, config);
    } else {
        assert(before[0] == moves[0]);
        assert forall|i: int| 0 <= i < before.len() implies (#[trigger] before[i]).at <= before[0].at
            + config.gesture_timeout_ms by {
            assert(before[i] == moves[i]);
        }
        law_swipe_is_sum_of_movements(s, before, now, config);
        assert(moves[moves.len() - 1].at <= moves[0].at + config.gesture_timeout_ms);
        law_movement_evaluates_after_timeout(
            s.after_movements(before, config),
            m.dx,
            m.dy,
            m.at,
            config,
        );
    }
    law_idle_evaluates_after_timeout(s.after_movements(moves, config), now, config);
}

/// All movement whose threefold fits in an `i32` can be accumulated and evaluated,
/// whatever the threshold.
pub proof fn law_movement_can_be_evaluated(s: GestureState, config: PointingConfig)
    requires
        -i32::MAX <= 3 * s.acc_x <= i32::MAX,
        -i32::MAX <= 3 * s.acc_y <= i32::MAX,
    ensures
        s.fits(),
        s.evaluable(config),
{
}

/// A new detector tracks nothing.
pub proof fn law_new_detector_tracks_nothing()
    ensures
        !GestureState::initial().tracking,
        GestureState::initial().acc_x == 0 && GestureState::initial().acc_y == 0,
        GestureState::initial().start_ticks == 0,
{
}

} // verus!
