//! Input events, as devices emit them and processors take them in.

use vstd::prelude::*;

verus! {

/// An axis of movement.
#[derive(Clone, Copy, Debug, PartialEq, Eq, Structural)]
pub enum Axis {
    X,
    Y,
    Z,
}

/// How an axis value is to be taken.
#[derive(Clone, Copy, Debug, PartialEq, Eq, Structural)]
pub enum AxisValType {
    /// A change of position.
    Rel,
    /// A position.
    Abs,
}

/// The value of one axis.
#[derive(Clone, Copy, Debug, PartialEq, Eq, Structural)]
pub struct AxisEvent {
    pub typ: AxisValType,
    pub axis: Axis,
    pub value: i16,
}

/// An input event. Events other than movement are not looked into: `T` stands for
/// whatever they are.
#[derive(Debug)]
pub enum Event<T> {
    /// Movement along three axes.
    Joystick([AxisEvent; 3]),
    /// Any other event.
    Other(T),
}

/// A relative movement by `value` along `axis`.
pub open spec fn rel(axis: Axis, value: i16) -> AxisEvent {
    AxisEvent { typ: AxisValType::Rel, axis, value }
}

/// A relative movement in the plane.
pub open spec fn planar(dx: i16, dy: i16) -> [AxisEvent; 3] {
    [rel(Axis::X, dx), rel(Axis::Y, dy), rel(Axis::Z, 0)]
}

/// Builds the axis events of a relative movement in the plane.
pub fn planar_motion(dx: i16, dy: i16) -> (axes: [AxisEvent; 3])
    ensures
        axes == planar(dx, dy),
{
    let axes = [
        AxisEvent { typ: AxisValType::Rel, axis: Axis::X, value: dx },
        AxisEvent { typ: AxisValType::Rel, axis: Axis::Y, value: dy },
        AxisEvent { typ: AxisValType::Rel, axis: Axis::Z, value: 0 },
    ];
    assert(axes@ =~= planar(dx, dy)@);
    axes
}

} // verus!
