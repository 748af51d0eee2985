//! Identities of input sources and the controller actions they can be bound
//! to, together with the fixed-point conventions used for every analog
//! quantity in the engine.

use vstd::prelude::*;
use crate::types::ControllerButton;
use crate::types::MouseButton;

verus! {

/// One fixed-point unit: analog factors, velocities, thresholds and stick
/// totals are all integers counting 1/32768ths, so a value of `FP_ONE`
/// means 1.0 and full stick deflection.
pub const FP_ONE: i64 = 32768;

/// Largest magnitude accepted for a configured per-axis factor or for the
/// sensitivity and alert threshold (32.0 in real units); keeps every
/// aggregation product inside 128-bit arithmetic.
pub const FACTOR_MAX: i64 = 1048576;

/// Largest magnitude accepted for the configured sensitivity (1024.0 in
/// real units); keeps every aggregation product inside 128-bit arithmetic.
pub const SENS_MAX: i64 = 33554432;

/// Largest number of entries accepted in a binding table.
pub const MAX_BINDS: usize = 4096;

/// One axis of a stick.
#[derive(Clone, Copy, Debug, PartialEq, Eq, Hash, Structural)]
pub enum Axis {
    X,
    Y,
}

/// Identity of an input source, used as a lookup and storage key.
#[derive(Clone, Copy, Debug, PartialEq, Eq, Hash, Structural)]
pub enum Bind {
    /// A keyboard key, by raw 16-bit scan code.
    Keyboard(u16),
    /// A physical mouse button.
    Mouse(MouseButton),
    /// The synthetic source standing for relative mouse motion.
    MouseMove,
}

/// The action a bind drives: a discrete controller button, or a momentary
/// analog contribution to one stick with per-axis fixed-point factors.
#[derive(Clone, Copy, Debug, PartialEq, Eq, Structural)]
pub enum ControllerAction {
    Button(ControllerButton),
    AnalogLeft(i64, i64),
    AnalogRight(i64, i64),
}

impl ControllerAction {
    /// Whether the action is an analog contribution (either stick).
    pub open spec fn spec_is_analog(self) -> bool {
        !(self is Button)
    }

    /// Both factors of an analog action lie within `FACTOR_MAX`; true of
    /// button actions, which carry no factors.
    pub open spec fn factors_bounded(self) -> bool {
        match self {
            ControllerAction::Button(_) => true,
            ControllerAction::AnalogLeft(x, y) => -FACTOR_MAX <= x <= FACTOR_MAX && -FACTOR_MAX
                <= y <= FACTOR_MAX,
            ControllerAction::AnalogRight(x, y) => -FACTOR_MAX <= x <= FACTOR_MAX && -FACTOR_MAX
                <= y <= FACTOR_MAX,
        }
    }

    /// Whether the action is an analog contribution (either stick).
    pub fn is_analog(&self) -> (r: bool)
        ensures
            r == self.spec_is_analog(),
    {
        match self {
            ControllerAction::Button(_) => false,
            _ => true,
        }
    }
}

} // verus!
