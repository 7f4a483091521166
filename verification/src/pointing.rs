//! Pointing events and the modes a pointer can be in.

use vstd::prelude::*;

verus! {

/// An axis of a pointing device.
#[derive(Debug, Clone, Copy, PartialEq, Eq, Structural)]
pub enum Axis {
    X,
    Y,
    Z,
}

/// Whether a value is a displacement or a position.
#[derive(Debug, Clone, Copy, PartialEq, Eq, Structural)]
pub enum AxisValType {
    Rel,
    Abs,
}

/// A value on one axis.
#[derive(Debug, Clone, Copy, PartialEq, Eq, Structural)]
pub struct AxisEvent {
    pub typ: AxisValType,
    pub axis: Axis,
    pub value: i16,
}

/// What a pointing device reports.
#[derive(Debug, Clone, Copy)]
pub struct PointingEvent {
    pub device_id: u8,
    pub axes: [AxisEvent; 3],
}

impl PointingEvent {
    /// Whether this event moves device `device_id` by `x` and `y` and nothing else.
    pub open spec fn moves(self, device_id: u8, x: i16, y: i16) -> bool {
        &&& self.device_id == device_id
        &&& self.axes@ == seq![
            AxisEvent { typ: AxisValType::Rel, axis: Axis::X, value: x },
            AxisEvent { typ: AxisValType::Rel, axis: Axis::Y, value: y },
            AxisEvent { typ: AxisValType::Rel, axis: Axis::Z, value: 0 },
        ]
    }

    /// A displacement in the plane.
    pub fn relative(device_id: u8, x: i16, y: i16) -> (r: Self)
        ensures
            r.moves(device_id, x, y),
    {
        let r = PointingEvent {
            device_id,
            axes: [
                AxisEvent { typ: AxisValType::Rel, axis: Axis::X, value: x },
                AxisEvent { typ: AxisValType::Rel, axis: Axis::Y, value: y },
                AxisEvent { typ: AxisValType::Rel, axis: Axis::Z, value: 0 },
            ],
        };
        assert(r.axes@ =~= seq![
            AxisEvent { typ: AxisValType::Rel, axis: Axis::X, value: x },
            AxisEvent { typ: AxisValType::Rel, axis: Axis::Y, value: y },
            AxisEvent { typ: AxisValType::Rel, axis: Axis::Z, value: 0 },
        ]);
        r
    }
}

/// Cursor motion scaled by `multiplier / divisor`.
#[derive(Debug, Clone, Copy, PartialEq, Eq, Structural)]
pub struct SniperConfig {
    pub multiplier: u8,
    pub divisor: u8,
    pub invert_x: bool,
    pub invert_y: bool,
}

/// Motion turned into wheel steps, one scale per axis.
#[derive(Debug, Clone, Copy, PartialEq, Eq, Structural)]
pub struct ScrollConfig {
    pub multiplier_x: u8,
    pub divisor_x: u8,
    pub multiplier_y: u8,
    pub divisor_y: u8,
    pub invert_x: bool,
    pub invert_y: bool,
}

/// What becomes of a pointer's motion.
#[derive(Debug, Clone, Copy, PartialEq, Eq, Structural)]
pub enum PointingMode {
    Sniper(SniperConfig),
    Scroll(ScrollConfig),
}

/// Tells the processor of device `device_id` to change its mode.
#[derive(Debug, Clone, Copy, PartialEq, Eq, Structural)]
pub struct PointingProcessorEvent {
    pub device_id: u8,
    pub mode: PointingMode,
}

} // verus!
