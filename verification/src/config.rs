//! The immutable configuration snapshot and the live analog contribution
//! record. Configuration is loaded once at startup by an external
//! collaborator; the validating constructor is the only gate on its
//! numeric ranges.

use vstd::prelude::*;
use crate::bindmap::BindMap;
use crate::binds::Bind;
use crate::binds::ControllerAction;
use crate::binds::FACTOR_MAX;
use crate::binds::MAX_BINDS;
use crate::binds::SENS_MAX;

verus! {

/// Which stick an analog contribution drives.
#[derive(Clone, Copy, Debug, PartialEq, Eq, Structural)]
pub enum AnalogType {
    Left,
    Right,
}

impl AnalogType {
    /// Human-readable variant name.
    pub fn label(&self) -> (r: &'static str)
        ensures
            r@ == spec_analog_type_label(*self),
    {
        match self {
            AnalogType::Left => "Left",
            AnalogType::Right => "Right",
        }
    }
}

pub open spec fn spec_analog_type_label(t: AnalogType) -> Seq<char> {
    match t {
        AnalogType::Left => "Left"@,
        AnalogType::Right => "Right"@,
    }
}

/// Magnitude bound kept for every live analog contribution; a machine
/// limit that keeps the per-stick sums inside 128-bit arithmetic. Every
/// configured factor and every windowed mouse contribution lies far below
/// it.
pub const CONTRIB_MAX: i128 = 0x40000000000000000000000;

/// The live contribution of one active bind to one stick, in fixed point.
#[derive(Clone, Copy, Debug, PartialEq, Eq, Structural)]
pub struct AnalogState {
    pub analog_type: AnalogType,
    pub x: i128,
    pub y: i128,
}

impl AnalogState {
    /// Both axes lie within the contribution bound.
    pub open spec fn bounded(self) -> bool {
        -CONTRIB_MAX <= self.x <= CONTRIB_MAX && -CONTRIB_MAX <= self.y <= CONTRIB_MAX
    }
}

/// Immutable snapshot of the engine's tuning: sensitivity and sample
/// window for the velocity tracker, the scheduler spin period, the
/// oversteer alert, the shaping mode, the mouse button fix, and the
/// binding table. All fixed-point fields count 1/32768ths.
pub struct Config {
    pub sensitivity: i64,
    pub sample_window_us: u64,
    pub spin_period_us: u64,
    pub oversteer_alert_enabled: bool,
    pub oversteer_alert_threshold: i64,
    pub analog_circularize: bool,
    pub mouse_button_fix: bool,
    pub binds: BindMap<ControllerAction>,
}

impl Config {
    /// Well-formed: sensitivity in range, a positive sample window, and a
    /// binding table with unique keys, bounded factors and bounded size.
    pub open spec fn wf(&self) -> bool {
        &&& -SENS_MAX <= self.sensitivity <= SENS_MAX
        &&& 1 <= self.sample_window_us
        &&& self.binds.wf()
        &&& self.binds@.len() <= MAX_BINDS
        &&& forall|i: int| 0 <= i < self.binds@.len() ==> (#[trigger] self.binds@[i].1).factors_bounded()
    }

    /// Pure binding lookup, with no side effects and no error path: an
    /// absent bind is legitimately unmapped and the caller ignores it.
    pub fn resolve(&self, bind: Bind) -> (r: Option<ControllerAction>)
        requires
            self.wf(),
        ensures
            r == (if crate::bindmap::al_map(self.binds@).contains_key(bind) {
                Some(crate::bindmap::al_map(self.binds@)[bind])
            } else {
                None::<ControllerAction>
            }),
    {
        self.binds.get(bind)
    }

    /// Validate and assemble a configuration. Returns the snapshot exactly
    /// when the sensitivity, the sample window, every bound factor and the
    /// table size are in range; rejecting out-of-range numbers here is what
    /// lets every later arithmetic step stay exact.
    pub fn new(
        sensitivity: i64,
        sample_window_us: u64,
        spin_period_us: u64,
        oversteer_alert_enabled: bool,
        oversteer_alert_threshold: i64,
        analog_circularize: bool,
        mouse_button_fix: bool,
        binds: BindMap<ControllerAction>,
    ) -> (r: Option<Config>)
        requires
            binds.wf(),
        ensures
            match r {
                Some(c) => {
                    &&& c.wf()
                    &&& c.binds@.len() < MAX_BINDS
                    &&& c.sensitivity == sensitivity
                    &&& c.sample_window_us == sample_window_us
                    &&& c.spin_period_us == spin_period_us
                    &&& c.oversteer_alert_enabled == oversteer_alert_enabled
                    &&& c.oversteer_alert_threshold == oversteer_alert_threshold
                    &&& c.analog_circularize == analog_circularize
                    &&& c.mouse_button_fix == mouse_button_fix
                    &&& c.binds@ == binds@
                },
                None => !({
                    &&& -SENS_MAX <= sensitivity <= SENS_MAX
                    &&& 1 <= sample_window_us
                    &&& binds@.len() < MAX_BINDS
                    &&& forall|i: int|
                        0 <= i < binds@.len() ==> (#[trigger] binds@[i].1).factors_bounded()
                }),
            },
    {
        if sensitivity < -SENS_MAX || sensitivity > SENS_MAX {
            return None;
        }
        if sample_window_us < 1 {
            return None;
        }
        if binds.entries.len() >= MAX_BINDS {
            return None;
        }
        let mut i: usize = 0;
        while i < binds.entries.len()
            invariant
                i <= binds@.len(),
                forall|j: int| 0 <= j < i ==> (#[trigger] binds@[j].1).factors_bounded(),
            decreases binds@.len() - i,
        {
            let ok = match binds.entries[i].1 {
                ControllerAction::Button(_) => true,
                ControllerAction::AnalogLeft(x, y) => -FACTOR_MAX <= x && x <= FACTOR_MAX
                    && -FACTOR_MAX <= y && y <= FACTOR_MAX,
                ControllerAction::AnalogRight(x, y) => -FACTOR_MAX <= x && x <= FACTOR_MAX
                    && -FACTOR_MAX <= y && y <= FACTOR_MAX,
            };
            if !ok {
                return None;
            }
            i = i + 1;
        }
        Some(
            Config {
                sensitivity,
                sample_window_us,
                spin_period_us,
                oversteer_alert_enabled,
                oversteer_alert_threshold,
                analog_circularize,
                mouse_button_fix,
                binds,
            },
        )
    }
}

impl Default for Config {
    /// The stock tuning: sensitivity 5.0, a 20 ms sample window, a 2 ms
    /// spin period, the alert disabled with threshold 1.5, linear shaping,
    /// no mouse button fix, and an empty binding table.
    fn default() -> (r: Config)
        ensures
            r.wf(),
            r.binds@.len() == 0,
            r.sensitivity == 163840,
            r.sample_window_us == 20000,
            r.spin_period_us == 2000,
            !r.oversteer_alert_enabled,
            r.oversteer_alert_threshold == 49152,
            !r.analog_circularize,
            !r.mouse_button_fix,
    {
        Config {
            sensitivity: 163840,
            sample_window_us: 20000,
            spin_period_us: 2000,
            oversteer_alert_enabled: false,
            oversteer_alert_threshold: 49152,
            analog_circularize: false,
            mouse_button_fix: false,
            binds: BindMap::new(),
        }
    }
}

} // verus!
