//! The controller report: a button bitmask, two 8-bit trigger values and
//! four signed 16-bit stick axes. One instance lives in the engine, is
//! mutated in place every tick, and is reset to all zero on a reset event.

use vstd::prelude::*;

verus! {

/// A full snapshot of the virtual controller's state, flushed to the
/// device collaborator every tick.
#[derive(Clone, Copy, Debug, PartialEq, Eq, Structural)]
pub struct ControllerReport {
    pub w_buttons: u16,
    pub b_left_trigger: u8,
    pub b_right_trigger: u8,
    pub s_thumb_lx: i16,
    pub s_thumb_ly: i16,
    pub s_thumb_rx: i16,
    pub s_thumb_ry: i16,
}

impl ControllerReport {
    /// The all-zero report: no buttons, no triggers, both sticks at rest.
    pub open spec fn spec_zero() -> ControllerReport {
        ControllerReport {
            w_buttons: 0,
            b_left_trigger: 0,
            b_right_trigger: 0,
            s_thumb_lx: 0,
            s_thumb_ly: 0,
            s_thumb_rx: 0,
            s_thumb_ry: 0,
        }
    }

    /// The all-zero report.
    pub fn zero() -> (r: ControllerReport)
        ensures
            r == ControllerReport::spec_zero(),
    {
        ControllerReport {
            w_buttons: 0,
            b_left_trigger: 0,
            b_right_trigger: 0,
            s_thumb_lx: 0,
            s_thumb_ly: 0,
            s_thumb_rx: 0,
            s_thumb_ry: 0,
        }
    }
}

impl Default for ControllerReport {
    /// A fresh report is all zero.
    fn default() -> (r: ControllerReport)
        ensures
            r == ControllerReport::spec_zero(),
    {
        ControllerReport::zero()
    }
}

} // verus!
