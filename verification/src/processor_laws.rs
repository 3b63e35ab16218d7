//! What holds of the pointing features and of the auto mouse layer.

use crate::arith::{at_least_one, quotient};
use crate::clock::TICKS_PER_MILLI;
use crate::event::{Axis, AxisEvent, Event};
use crate::pointing::{magnitude, PointingConfig, PointingState};
use crate::processor::{
    axis_value, cpi_scale, drag_lock_bits, effective_level, featured, report_of, reportable, scaled,
    snapped, AutoMouseConfig, MouseReport, ProcessResult, ProcessorState,
};
use vstd::prelude::*;

verus! {

/// A level with the CPI of the first one leaves movement as it is, where neither
/// snapping nor sniper mode is in effect. The first level itself is one.
pub proof fn law_base_level_keeps_movement(
    state: PointingState,
    config: PointingConfig,
    x: i16,
    y: i16,
)
    requires
        config.cpi_levels@[0] >= 1,
        config.cpi_levels@[effective_level(state.cpi_level)] == config.cpi_levels@[0],
        !state.angle_snap_active(),
        !state.sniper_mode,
    ensures
        featured(state, config, x as int, y as int) == (x as int, y as int),
{
    let base = config.cpi_levels@[0] as int;
    assert((base * 100) / base == 100) by (nonlinear_arith)
        requires
            base >= 1,
    ;
    assert(cpi_scale(config, state.cpi_level) == 100);
}

/// A processor with default settings reports movement as it is, as far as a report
/// can hold it.
pub proof fn law_default_settings_keep_movement(x: i16, y: i16)
    requires
        i8::MIN <= x <= i8::MAX,
        i8::MIN <= y <= i8::MAX,
    ensures
        report_of(PointingState::initial(), PointingConfig::initial(), x as int, y as int) == (
        MouseReport { buttons: 0, x: x as i8, y: y as i8, wheel: 0, pan: 0 }),
{
    law_base_level_keeps_movement(PointingState::initial(), PointingConfig::initial(), x, y);
}

/// Snapping drops at most one axis, and only one that the other exceeds by more
/// than the ratio; what is left is not snapped any further.
pub proof fn law_snapping(x: int, y: int, ratio: int)
    requires
        ratio >= 1,
    ensures
        ({
            let (sx, sy) = snapped(x, y, ratio);
            &&& sx == x || (sx == 0 && sy == y && magnitude(y) > magnitude(x) * ratio)
            &&& sy == y || (sy == 0 && sx == x && magnitude(x) > magnitude(y) * ratio)
            &&& snapped(sx, sy, ratio) == (sx, sy)
        }),
{
    assert(magnitude(x) * ratio >= magnitude(x) && magnitude(y) * ratio >= magnitude(y))
        by (nonlinear_arith)
        requires
            ratio >= 1,
            magnitude(x) >= 0,
            magnitude(y) >= 0,
    ;
    assert(0 * ratio == 0);
}

/// Dividing, as sniper mode and scrolling do, never lengthens a movement and never
/// turns it round.
pub proof fn law_division_never_lengthens(v: int, divisor: int)
    requires
        divisor >= 1,
    ensures
        magnitude(quotient(v, divisor)) <= magnitude(v),
        v >= 0 ==> quotient(v, divisor) >= 0,
        v <= 0 ==> quotient(v, divisor) <= 0,
        quotient(-v, divisor) == -quotient(v, divisor),
{
    let m = magnitude(v);
    assert(0 <= m / divisor <= m) by (nonlinear_arith)
        requires
            m >= 0,
            divisor >= 1,
    ;
}

/// The higher the divisor, the slower: a larger one never gives a longer movement.
pub proof fn law_higher_divisor_is_slower(v: int, d1: int, d2: int)
    requires
        1 <= d1 <= d2,
    ensures
        magnitude(quotient(v, d2)) <= magnitude(quotient(v, d1)),
{
    vstd::arithmetic::div_mod::lemma_div_is_ordered_by_denominator(magnitude(v), d1, d2);
    law_division_never_lengthens(v, d1);
    law_division_never_lengthens(v, d2);
}

/// Switching the CPI never turns a movement round.
pub proof fn law_scaling_keeps_direction(config: PointingConfig, level: u8, v: int)
    ensures
        v >= 0 ==> scaled(v, cpi_scale(config, level)) >= 0,
        v <= 0 ==> scaled(v, cpi_scale(config, level)) <= 0,
{
    let percent = cpi_scale(config, level);
    assert((v >= 0 ==> v * percent >= 0) && (v <= 0 ==> v * percent <= 0)) by (nonlinear_arith)
        requires
            percent >= 0,
    ;
}

/// Nothing moves in a report on no movement.
pub proof fn law_no_movement_no_report_movement(state: PointingState, config: PointingConfig)
    ensures
        report_of(state, config, 0, 0) == (MouseReport {
            buttons: drag_lock_bits(state),
            x: 0,
            y: 0,
            wheel: 0,
            pan: 0,
        }),
{
    let percent = cpi_scale(config, state.cpi_level);
    assert(0 * percent == 0);
    assert(scaled(0, percent) == 0);
    let ratio = at_least_one(config.angle_snap_ratio as int);
    assert(0 * ratio == 0);
    assert(snapped(0, 0, ratio) == (0int, 0int));
    law_division_never_lengthens(0, at_least_one(config.sniper_divisor as int));
    law_division_never_lengthens(0, at_least_one(config.scroll_divisor as int));
}

/// A report scrolls or moves the cursor, never both, and shows the drag lock either
/// way.
pub proof fn law_report_scrolls_or_moves(
    state: PointingState,
    config: PointingConfig,
    x: int,
    y: int,
)
    ensures
        ({
            let report = report_of(state, config, x, y);
            &&& state.scroll_active() ==> report.x == 0 && report.y == 0
            &&& !state.scroll_active() ==> report.wheel == 0 && report.pan == 0
            &&& report.buttons == drag_lock_bits(state)
        }),
{
}

/// A locked button shows as its own bit of the report, and no other.
pub proof fn law_drag_lock_is_one_bit(state: PointingState, bit: u8)
    requires
        bit < 8,
        state.drag_lock_button matches Some(button) ==> button < 8,
    ensures
        (drag_lock_bits(state) & (1u8 << bit) != 0) == (state.drag_lock_button == Some(bit)),
{
    match state.drag_lock_button {
        Some(button) => {
            assert(((1u8 << button) & (1u8 << bit) != 0) == (button == bit)) by (bit_vector)
                requires
                    button < 8,
                    bit < 8,
            ;
        },
        None => {
            assert(0u8 & (1u8 << bit) == 0) by (bit_vector);
        },
    }
}

/// An active layer times out exactly once its timeout has passed since the last
/// motion.
pub proof fn law_layer_timeout(p: ProcessorState, now: u64)
    requires
        p.wf(),
        p.auto_mouse_active,
        p.not_after(now),
    ensures
        p.layer_timed_out(now) <==> (now - p.last_motion_time->0) / TICKS_PER_MILLI as int
            >= p.auto_mouse->0.timeout_ms,
{
}

/// The layer is activated and deactivated in turn: processing deactivates only an
/// active layer and activates only an inactive one, and keeps track of which it is.
pub proof fn law_layer_switches_in_turn<T>(
    p: ProcessorState,
    signal: Option<PointingState>,
    event: Event<T>,
    checked_at: u64,
    moved_at: u64,
)
    requires
        p.wf(),
    ensures
        ({
            let (q, outcome) = p.processed(signal, event, checked_at, moved_at);
            &&& q.wf()
            &&& outcome.deactivate is Some ==> p.auto_mouse_active
            &&& outcome.activate is Some ==> !p.auto_mouse_active || outcome.deactivate is Some
            &&& q.auto_mouse_active == (outcome.activate is Some || (p.auto_mouse_active
                && outcome.deactivate is None))
        }),
{
}

/// Movement always leaves a configured layer active, and notes its time.
pub proof fn law_movement_activates_layer<T>(
    p: ProcessorState,
    signal: Option<PointingState>,
    event: Event<T>,
    checked_at: u64,
    moved_at: u64,
)
    requires
        p.auto_mouse is Some,
        event matches Event::Joystick(axes) && (axis_value(axes@, Axis::X) != 0 || axis_value(
            axes@,
            Axis::Y,
        ) != 0),
    ensures
        ({
            let q = p.processed(signal, event, checked_at, moved_at).0;
            q.auto_mouse_active && q.last_motion_time == Some(moved_at)
        }),
{
}

/// The axis events of a movement in the plane read back as that movement.
pub proof fn law_planar_reads_back(dx: i16, dy: i16)
    ensures
        axis_value(crate::event::planar(dx, dy)@, Axis::X) == dx,
        axis_value(crate::event::planar(dx, dy)@, Axis::Y) == dy,
{
    reveal_with_fuel(axis_value, 4);
    let axes = crate::event::planar(dx, dy)@;
    assert(axes.len() == 3);
    assert(axes[0].axis == Axis::X && axes[1].axis == Axis::Y && axes[2].axis == Axis::Z);
}

/// Whether `q` is `v` over `d`, with the remainder left towards zero.
pub open spec fn divides_to(v: int, d: int, q: int) -> bool {
    if v >= 0 {
        q >= 0 && q * d <= v && v < q * d + d
    } else {
        q <= 0 && v <= q * d && q * d - d < v
    }
}

/// A number over another leaves only one quotient towards zero.
pub proof fn lemma_quotient(v: int, d: int)
    requires
        d >= 1,
    ensures
        divides_to(v, d, quotient(v, d)),
        forall|q: int| divides_to(v, d, q) ==> q == quotient(v, d),
{
    let m = magnitude(v);
    let n = m / d;
    assert(n >= 0 && n * d <= m && m < n * d + d) by (nonlinear_arith)
        requires
            m >= 0,
            d >= 1,
            n == m / d,
    ;
    assert((-n) * d == -(n * d)) by (nonlinear_arith);
    assert forall|q: int| divides_to(v, d, q) implies q == quotient(v, d) by {
        let r = if v >= 0 {
            q
        } else {
            -q
        };
        assert((-q) * d == -(q * d)) by (nonlinear_arith);
        assert(r == n) by (nonlinear_arith)
            requires
                d >= 1,
                r * d <= m < r * d + d,
                n * d <= m < n * d + d,
        ;
    }
}

/// Dominance, spelled out: `a` exceeds `ratio` times `b`, whatever their signs.
pub open spec fn dominates(a: int, b: int, ratio: int) -> bool {
    ||| a > b * ratio && a > -(b * ratio)
    ||| -a > b * ratio && -a > -(b * ratio)
}

/// Snapping drops an axis exactly where the other one dominates it, to whichever side
/// either of them points, and keeps the dominant one as it is.
pub proof fn law_snapping_drops_dominated_axis(x: int, y: int, ratio: int)
    requires
        ratio >= 1,
    ensures
        dominates(x, y, ratio) ==> snapped(x, y, ratio) == (x, 0int),
        dominates(y, x, ratio) ==> snapped(x, y, ratio) == (0int, y),
        !dominates(x, y, ratio) && !dominates(y, x, ratio) ==> snapped(x, y, ratio) == (x, y),
{
    assert((-x) * ratio == -(x * ratio) && (-y) * ratio == -(y * ratio)) by (nonlinear_arith);
    let (a, b) = (magnitude(x), magnitude(y));
    assert(a * ratio >= a && b * ratio >= b) by (nonlinear_arith)
        requires
            ratio >= 1,
            a >= 0,
            b >= 0,
    ;
}

/// Snapping treats all directions alike: it goes with turning either axis round and
/// with exchanging the axes.
pub proof fn law_snapping_is_symmetric(x: int, y: int, ratio: int)
    requires
        ratio >= 1,
    ensures
        ({
            let (sx, sy) = snapped(x, y, ratio);
            &&& snapped(-x, y, ratio) == (-sx, sy)
            &&& snapped(x, -y, ratio) == (sx, -sy)
            &&& snapped(y, x, ratio) == (sy, sx)
        }),
{
    law_snapping_drops_dominated_axis(x, y, ratio);
    law_snapping_drops_dominated_axis(-x, y, ratio);
    law_snapping_drops_dominated_axis(x, -y, ratio);
    law_snapping_drops_dominated_axis(y, x, ratio);
    assert((-x) * ratio == -(x * ratio) && (-y) * ratio == -(y * ratio)) by (nonlinear_arith);
}

/// Snapping comes before everything else. Where exactly one of toggle and key asks for
/// it, the movement is what the dominant axis alone would give, with the other features
/// as they are; where no axis dominates, it is what it would be without snapping. A
/// ratio under one counts as one.
pub proof fn law_snapping_comes_first(
    state: PointingState,
    config: PointingConfig,
    x: int,
    y: int,
    ratio: int,
)
    requires
        state.angle_snap != state.angle_snap_momentary,
        ratio >= 1,
        ratio == config.angle_snap_ratio || (ratio == 1 && config.angle_snap_ratio < 1),
    ensures
        ({
            let plain = PointingState { angle_snap: false, angle_snap_momentary: false, ..state };
            let (mx, my) = if dominates(x, y, ratio) {
                (x, 0int)
            } else if dominates(y, x, ratio) {
                (0int, y)
            } else {
                (x, y)
            };
            featured(state, config, x, y) == featured(plain, config, mx, my)
        }),
{
    law_snapping_drops_dominated_axis(x, y, ratio);
}

/// Toggle and key together ask for no snapping, as do neither of them.
pub proof fn law_toggle_and_key_cancel(
    state: PointingState,
    config: PointingConfig,
    x: int,
    y: int,
)
    requires
        state.angle_snap == state.angle_snap_momentary,
    ensures
        ({
            let plain = PointingState { angle_snap: false, angle_snap_momentary: false, ..state };
            featured(state, config, x, y) == featured(plain, config, x, y)
        }),
{
}

/// The scale is the percentage that the selected level, the last one for an index past
/// the end, is of the first one, rounded down. A first level of zero counts as one, and
/// a scale past the largest `i16` as that.
pub proof fn law_cpi_scale_is_percentage(
    config: PointingConfig,
    level: u8,
    selected: int,
    base: int,
)
    requires
        selected == level || (selected == 3 && level > 3),
        0 <= selected <= 3,
        base >= 1,
        base == config.cpi_levels@[0] || (base == 1 && config.cpi_levels@[0] == 0),
    ensures
        ({
            let percent = cpi_scale(config, level);
            let cpi = config.cpi_levels@[selected] as int;
            &&& 0 <= percent <= 32767
            &&& percent * base <= 100 * cpi
            &&& percent < 32767 ==> 100 * cpi < percent * base + base
        }),
{
    let cpi = config.cpi_levels@[selected] as int;
    lemma_quotient(cpi * 100, base);
    let exact = (cpi * 100) / base;
    let percent = cpi_scale(config, level);
    assert(percent * base <= exact * base) by (nonlinear_arith)
        requires
            percent <= exact,
            base >= 1,
    ;
}

/// Whether `r` is `percent` hundredths of `v`, the rest dropped towards zero, or the
/// nearest `i16` where that is none.
pub open spec fn scales_to(v: int, percent: int, r: int) -> bool {
    if v * percent >= 3_276_800 {
        r == 32767
    } else if v * percent <= -3_276_900 {
        r == -32768
    } else {
        divides_to(v * percent, 100, r)
    }
}

/// Without snapping and sniper mode, each axis is scaled, by itself, to the percentage
/// that the selected CPI level is of the first one.
pub proof fn law_movement_is_scaled(state: PointingState, config: PointingConfig, x: int, y: int)
    requires
        state.angle_snap == state.angle_snap_momentary,
        !state.sniper_mode,
    ensures
        ({
            let percent = cpi_scale(config, state.cpi_level);
            &&& scales_to(x, percent, featured(state, config, x, y).0)
            &&& scales_to(y, percent, featured(state, config, x, y).1)
        }),
{
    let percent = cpi_scale(config, state.cpi_level);
    lemma_quotient(x * percent, 100);
    lemma_quotient(y * percent, 100);
}

/// Sniper mode divides whatever the movement would be without it, at every CPI level
/// and with or without snapping. A divisor under one counts as one, so that a divisor
/// of one changes nothing.
pub proof fn law_sniper_mode_divides(
    state: PointingState,
    config: PointingConfig,
    x: int,
    y: int,
    divisor: int,
)
    requires
        state.sniper_mode,
        divisor >= 1,
        divisor == config.sniper_divisor || (divisor == 1 && config.sniper_divisor < 1),
    ensures
        ({
            let free = PointingState { sniper_mode: false, ..state };
            let (fx, fy) = featured(free, config, x, y);
            let (sx, sy) = featured(state, config, x, y);
            &&& divides_to(fx, divisor, sx)
            &&& divides_to(fy, divisor, sy)
            &&& divisor == 1 ==> sx == fx && sy == fy
        }),
{
    let free = PointingState { sniper_mode: false, ..state };
    let (fx, fy) = featured(free, config, x, y);
    lemma_quotient(fx, divisor);
    lemma_quotient(fy, divisor);
    assert(fx * 1 == fx && fy * 1 == fy);
}

/// A level of `k` times the first one makes movement `k` times as long, and sniper mode
/// divides that.
pub proof fn law_multiple_of_base_level(
    state: PointingState,
    config: PointingConfig,
    x: int,
    y: int,
    selected: int,
    k: int,
    divisor: int,
)
    requires
        state.angle_snap == state.angle_snap_momentary,
        selected == state.cpi_level || (selected == 3 && state.cpi_level > 3),
        0 <= selected <= 3,
        config.cpi_levels@[0] >= 1,
        config.cpi_levels@[selected] == k * config.cpi_levels@[0],
        k * 100 <= 32767,
        -32768 <= x * k <= 32767,
        -32768 <= y * k <= 32767,
        divisor >= 1,
        divisor == config.sniper_divisor || (divisor == 1 && config.sniper_divisor < 1),
    ensures
        ({
            let (fx, fy) = featured(state, config, x, y);
            if state.sniper_mode {
                divides_to(x * k, divisor, fx) && divides_to(y * k, divisor, fy)
            } else {
                fx == x * k && fy == y * k
            }
        }),
{
    let base = config.cpi_levels@[0] as int;
    let free = PointingState { sniper_mode: false, ..state };
    let percent = cpi_scale(config, state.cpi_level);
    law_cpi_scale_is_percentage(config, state.cpi_level, selected, base);
    assert(percent == 100 * k) by (nonlinear_arith)
        requires
            base >= 1,
            k * 100 <= 32767,
            0 <= percent <= 32767,
            percent * base <= 100 * (k * base),
            percent < 32767 ==> 100 * (k * base) < percent * base + base,
    ;
    law_movement_is_scaled(free, config, x, y);
    assert(x * percent == 100 * (x * k) && y * percent == 100 * (y * k)) by (nonlinear_arith)
        requires
            percent == 100 * k,
    ;
    if state.sniper_mode {
        law_sniper_mode_divides(state, config, x, y, divisor);
    }
}

/// Whether `r` is `v`, or the nearest number that a report can hold.
pub open spec fn reports_as(v: int, r: i8) -> bool {
    &&& -128 <= v <= 127 ==> r == v
    &&& v > 127 ==> r == 127
    &&& v < -128 ==> r == -128
}

/// Outside scroll mode, where toggle and key agree, a report moves the cursor by the
/// movement, as far as it can hold it, and does not scroll.
pub proof fn law_report_moves_cursor(state: PointingState, config: PointingConfig, x: int, y: int)
    requires
        state.scroll_mode == state.scroll_momentary,
    ensures
        ({
            let report = report_of(state, config, x, y);
            &&& reports_as(featured(state, config, x, y).0, report.x)
            &&& reports_as(featured(state, config, x, y).1, report.y)
            &&& report.wheel == 0 && report.pan == 0
        }),
{
}

/// In scroll mode, where toggle and key differ, a report scrolls and leaves the cursor
/// where it is. Movement to the right pans to the right, movement up turns the wheel up,
/// both divided by the scroll divisor. One under one counts as one.
pub proof fn law_report_scrolls(
    state: PointingState,
    config: PointingConfig,
    x: int,
    y: int,
    divisor: int,
    right: int,
    up: int,
)
    requires
        state.scroll_mode != state.scroll_momentary,
        divisor >= 1,
        divisor == config.scroll_divisor || (divisor == 1 && config.scroll_divisor < 1),
        divides_to(featured(state, config, x, y).0, divisor, right),
        divides_to(-featured(state, config, x, y).1, divisor, up),
    ensures
        ({
            let report = report_of(state, config, x, y);
            &&& reports_as(right, report.pan)
            &&& reports_as(up, report.wheel)
            &&& report.x == 0 && report.y == 0
        }),
{
    lemma_quotient(featured(state, config, x, y).0, divisor);
    lemma_quotient(-featured(state, config, x, y).1, divisor);
}

/// A report shows the locked button as pressed, and no other, whether it scrolls or
/// not.
pub proof fn law_report_shows_locked_button(
    state: PointingState,
    config: PointingConfig,
    x: int,
    y: int,
    bit: u8,
)
    requires
        bit < 8,
        state.drag_lock_button matches Some(button) ==> button < 8,
    ensures
        (report_of(state, config, x, y).buttons & (1u8 << bit) != 0) == (state.drag_lock_button
            == Some(bit)),
{
    law_drag_lock_is_one_bit(state, bit);
}

/// Scroll mode and drag lock decide what a report makes of a movement, not how far the
/// movement goes.
pub proof fn law_features_ignore_scroll_and_drag(
    state: PointingState,
    other: PointingState,
    config: PointingConfig,
    x: int,
    y: int,
)
    requires
        other.angle_snap == state.angle_snap,
        other.angle_snap_momentary == state.angle_snap_momentary,
        other.sniper_mode == state.sniper_mode,
        other.cpi_level == state.cpi_level,
    ensures
        featured(other, config, x, y) == featured(state, config, x, y),
{
}

/// Every movement can be reported, but for the one that scrolling would have to turn
/// round and cannot, and for a locked button that there is no bit for.
pub proof fn law_reportable(state: PointingState, config: PointingConfig, x: int, y: int)
    ensures
        reportable(state, config, x, y) <==> {
            &&& state.scroll_mode == state.scroll_momentary || featured(state, config, x, y).1
                != -32768
            &&& state.drag_lock_button is None || state.drag_lock_button->0 < 8
        },
{
}

/// An axis has the value of the last event for it, and without one it is at rest.
pub proof fn law_last_event_of_axis_counts(axes: Seq<AxisEvent>, axis: Axis, last: int)
    requires
        -1 <= last < axes.len(),
        forall|i: int| last < i < axes.len() ==> (#[trigger] axes[i]).axis != axis,
        last >= 0 ==> axes[last].axis == axis,
    ensures
        axis_value(axes, axis) == if last >= 0 {
            axes[last].value
        } else {
            0
        },
    decreases axes.len(),
{
    if axes.len() > 0 && last < axes.len() - 1 {
        let before = axes.drop_last();
        assert(axes[axes.len() - 1].axis != axis);
        assert forall|i: int| last < i < before.len() implies (#[trigger] before[i]).axis != axis by {
            assert(before[i] == axes[i]);
        }
        law_last_event_of_axis_counts(before, axis, last);
    }
}

/// A new processor has its layer inactive and no motion noted, and holds what it was
/// made with.
pub proof fn law_new_processor(
    auto_mouse: Option<AutoMouseConfig>,
    state: PointingState,
    config: PointingConfig,
)
    ensures
        ({
            let p = ProcessorState::fresh(auto_mouse, state, config);
            &&& p.auto_mouse == auto_mouse && !p.auto_mouse_active && p.last_motion_time is None
            &&& p.pointing_state == state && p.pointing_config == config
        }),
{
}

/// Whether an event is movement: its last X value or its last Y value is not zero.
pub open spec fn moves<T>(event: Event<T>) -> bool {
    event matches Event::Joystick(axes) && (axis_value(axes@, Axis::X) != 0 || axis_value(
        axes@,
        Axis::Y,
    ) != 0)
}

/// Whether the layer of a processor has been at rest for its whole timeout, counted in
/// ticks of which a millisecond has a thousand.
pub open spec fn at_rest_too_long(p: ProcessorState, now: u64) -> bool {
    &&& p.auto_mouse_active
    &&& p.auto_mouse is Some && p.last_motion_time is Some
    &&& now >= p.last_motion_time->0 + p.auto_mouse->0.timeout_ms * 1000
}

/// Any event, movement or not, first deactivates a layer that has been at rest for its
/// timeout, and no other. Movement then activates the layer unless it is active, and
/// nothing else does. It is the configured layer either way.
pub proof fn law_layer_follows_movement<T>(
    p: ProcessorState,
    signal: Option<PointingState>,
    event: Event<T>,
    checked_at: u64,
    moved_at: u64,
)
    requires
        p.not_after(checked_at),
    ensures
        ({
            let (q, outcome) = p.processed(signal, event, checked_at, moved_at);
            let off = at_rest_too_long(p, checked_at);
            let on = moves(event) && p.auto_mouse is Some && (off || !p.auto_mouse_active);
            &&& outcome.deactivate == if off {
                Some(p.auto_mouse->0.layer)
            } else {
                None
            }
            &&& outcome.activate == if on {
                Some(p.auto_mouse->0.layer)
            } else {
                None
            }
            &&& q.auto_mouse_active == (on || (p.auto_mouse_active && !off))
            &&& q.last_motion_time == if moves(event) && p.auto_mouse is Some {
                Some(moved_at)
            } else if off {
                None
            } else {
                p.last_motion_time
            }
        }),
{
    if p.auto_mouse is Some && p.last_motion_time is Some {
        let passed = checked_at - p.last_motion_time->0;
        let limit = p.auto_mouse->0.timeout_ms as int;
        assert(passed / 1000 >= limit <==> passed >= limit * 1000);
    }
}

/// A timeout check on its own does what processing an event does first.
pub proof fn law_timeout_check(p: ProcessorState, now: u64)
    requires
        p.not_after(now),
    ensures
        ({
            let (q, layer) = p.timeout_checked(now);
            if at_rest_too_long(p, now) {
                &&& layer == Some(p.auto_mouse->0.layer)
                &&& q == (ProcessorState {
                    auto_mouse_active: false,
                    last_motion_time: None,
                    ..p
                })
            } else {
                q == p && layer is None
            }
        }),
{
    if p.auto_mouse is Some && p.last_motion_time is Some {
        let passed = now - p.last_motion_time->0;
        let limit = p.auto_mouse->0.timeout_ms as int;
        assert(passed / 1000 >= limit <==> passed >= limit * 1000);
    }
}

/// Motion notes its time and activates a configured layer that is not active yet.
/// Without a configured layer it changes nothing.
pub proof fn law_motion_activates(p: ProcessorState, now: u64)
    ensures
        ({
            let (q, layer) = p.activated(now);
            if p.auto_mouse is Some {
                &&& q == (ProcessorState {
                    auto_mouse_active: true,
                    last_motion_time: Some(now),
                    ..p
                })
                &&& layer == if p.auto_mouse_active {
                    None
                } else {
                    Some(p.auto_mouse->0.layer)
                }
            } else {
                q == p && layer is None
            }
        }),
{
}

/// Motion keeps the layer active for the whole timeout from then on: no event before
/// its end deactivates it, and the first one at or after it does.
pub proof fn law_motion_restarts_timeout<T>(
    p: ProcessorState,
    signal: Option<PointingState>,
    motion: Event<T>,
    checked_at: u64,
    moved_at: u64,
    later: Option<PointingState>,
    event: Event<T>,
    now: u64,
    later_at: u64,
)
    requires
        p.not_after(checked_at),
        p.auto_mouse is Some,
        moves(motion),
        moved_at <= now,
    ensures
        ({
            let q = p.processed(signal, motion, checked_at, moved_at).0;
            let outcome = q.processed(later, event, now, later_at).1;
            outcome.deactivate == if now >= moved_at + p.auto_mouse->0.timeout_ms * 1000 {
                Some(p.auto_mouse->0.layer)
            } else {
                None
            }
        }),
{
    let q = p.processed(signal, motion, checked_at, moved_at).0;
    law_layer_follows_movement(p, signal, motion, checked_at, moved_at);
    law_layer_follows_movement(q, later, event, now, later_at);
}

/// Joystick events are dealt with here: each gives one report, also on no movement, by
/// the pointing state that the keyboard sent last, this very signal included. Others go
/// on as they are and give none.
pub proof fn law_events_are_reported_or_passed_on<T>(
    p: ProcessorState,
    signal: Option<PointingState>,
    event: Event<T>,
    checked_at: u64,
    moved_at: u64,
)
    ensures
        ({
            let (q, outcome) = p.processed(signal, event, checked_at, moved_at);
            let state = match signal {
                Some(sent) => sent,
                None => p.pointing_state,
            };
            &&& q.pointing_state == state
            &&& q.pointing_config == p.pointing_config && q.auto_mouse == p.auto_mouse
            &&& match event {
                Event::Joystick(axes) => {
                    &&& outcome.result is Stop
                    &&& outcome.report == Some(
                        report_of(
                            state,
                            p.pointing_config,
                            axis_value(axes@, Axis::X) as int,
                            axis_value(axes@, Axis::Y) as int,
                        ),
                    )
                },
                Event::Other(_) => {
                    &&& outcome.result == ProcessResult::Continue(event)
                    &&& outcome.report is None
                },
            }
        }),
{
}

/// A signal replaces the pointing state and nothing else; without one nothing changes.
pub proof fn law_signal_replaces_state(p: ProcessorState, sent: PointingState)
    ensures
        p.signalled(Some(sent)) == (ProcessorState { pointing_state: sent, ..p }),
        p.signalled(None) == p,
{
}

/// An event can be processed exactly where its movement can be reported by the state
/// that it would be reported by.
pub proof fn law_processable<T>(
    p: ProcessorState,
    signal: Option<PointingState>,
    event: Event<T>,
)
    ensures
        p.processable(signal, event) <==> match event {
            Event::Joystick(axes) => reportable(
                match signal {
                    Some(sent) => sent,
                    None => p.pointing_state,
                },
                p.pointing_config,
                axis_value(axes@, Axis::X) as int,
                axis_value(axes@, Axis::Y) as int,
            ),
            Event::Other(_) => true,
        },
{
}

} // verus!
