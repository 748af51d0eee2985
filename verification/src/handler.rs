//! The engine: bind state machine, analog aggregator and per-tick driver.
//!
//! The surrounding application owns the event channel, the virtual
//! controller device and the alert tone; each tick it hands the engine at
//! most one event and the current monotonic time in microseconds, forwards
//! the resulting report to the device, and feeds the two returned alert
//! flags to the tone generator. The two sticks get independent alert
//! flags here, so a caller with a single shared tone channel must pick an
//! explicit merge policy instead of leaning on call order.

use vstd::prelude::*;
use vstd::set_lib::lemma_len_subset;
use crate::bindmap::BindMap;
use crate::bindmap::al_map;
use crate::bindmap::lemma_al_map_dom;
use crate::bindmap::lemma_al_map_index;
use crate::bindmap::lemma_al_map_len;
use crate::bindmap::unique_keys;
use crate::binds::Bind;
use crate::binds::ControllerAction;
use crate::binds::FACTOR_MAX;
use crate::binds::FP_ONE;
use crate::binds::MAX_BINDS;
use crate::config::AnalogState;
use crate::config::AnalogType;
use crate::config::CONTRIB_MAX;
use crate::config::Config;
use crate::math::div_trunc;
use crate::math::div_trunc_exec;
use crate::math::lemma_mul_bounds;
use crate::report::ControllerReport;
use crate::samples::MouseSample;
use crate::samples::MouseSampleQueue;
use crate::samples::MAX_SAMPLES;
use crate::samples::VEL_NUM_BOUND;
use crate::samples::evict_spec;
use crate::samples::vel_num_x;
use crate::samples::vel_num_y;
use crate::shape::TOTAL_BOUND;
use crate::shape::alert_for;
use crate::shape::shape_circular;
use crate::shape::shape_linear;
use crate::shape::spec_alert;
use crate::shape::spec_shape_circular;
use crate::shape::spec_shape_linear;
use crate::types::ControllerButton;
use crate::types::Event;
use crate::types::KeyState;
use crate::types::MouseButton;
use crate::types::spec_button_mask;

verus! {

/// The report after one up/down transition of a button-class bind: a
/// trigger byte goes to 255 on down and 0 on up; a bitmask button's bit is
/// or-ed in on down and cleared on up. Nothing else moves.
pub open spec fn report_after_button(
    r: ControllerReport,
    b: ControllerButton,
    ks: KeyState,
) -> ControllerReport {
    if b == ControllerButton::LeftTrigger {
        ControllerReport {
            b_left_trigger: if ks == KeyState::Down {
                255
            } else {
                0
            },
            ..r
        }
    } else if b == ControllerButton::RightTrigger {
        ControllerReport {
            b_right_trigger: if ks == KeyState::Down {
                255
            } else {
                0
            },
            ..r
        }
    } else {
        ControllerReport {
            w_buttons: if ks == KeyState::Down {
                r.w_buttons | spec_button_mask(b)
            } else {
                r.w_buttons & !spec_button_mask(b)
            },
            ..r
        }
    }
}

/// The live contribution set after one transition of an analog-class bind:
/// down (or re-assertion) upserts the configured entry; up removes the
/// bind's entry if present and otherwise changes nothing.
pub open spec fn analog_after_bind(
    m: Map<Bind, AnalogState>,
    bind: Bind,
    entry: AnalogState,
    ks: KeyState,
) -> Map<Bind, AnalogState> {
    if ks == KeyState::Down {
        m.insert(bind, entry)
    } else {
        m.remove(bind)
    }
}

/// One full step of the bind state machine: look the bind up; an unmapped
/// bind is a silent no-op; a button action touches only the report; an
/// analog action touches only the live contribution set.
pub open spec fn bind_step(
    binds: Map<Bind, ControllerAction>,
    rep: ControllerReport,
    am: Map<Bind, AnalogState>,
    bind: Bind,
    ks: KeyState,
) -> (ControllerReport, Map<Bind, AnalogState>) {
    if !binds.contains_key(bind) {
        (rep, am)
    } else {
        match binds[bind] {
            ControllerAction::Button(b) => (report_after_button(rep, b, ks), am),
            ControllerAction::AnalogLeft(x, y) => (
                rep,
                analog_after_bind(
                    am,
                    bind,
                    AnalogState { analog_type: AnalogType::Left, x: x as i128, y: y as i128 },
                    ks,
                ),
            ),
            ControllerAction::AnalogRight(x, y) => (
                rep,
                analog_after_bind(
                    am,
                    bind,
                    AnalogState { analog_type: AnalogType::Right, x: x as i128, y: y as i128 },
                    ks,
                ),
            ),
        }
    }
}

/// The remembered left/right physical mouse button states after one mouse
/// button event.
pub open spec fn mbs_after(
    mbs: (KeyState, KeyState),
    btn: MouseButton,
    ks: KeyState,
) -> (KeyState, KeyState) {
    (
        if btn == MouseButton::Left {
            ks
        } else {
            mbs.0
        },
        if btn == MouseButton::Right {
            ks
        } else {
            mbs.1
        },
    )
}

/// A whole mouse button event: remember the new left/right state, run the
/// bind step, and — with the mouse button fix enabled, on an up event —
/// re-assert a synthetic down for each of left and right whose remembered
/// state is still down. The fix only fires on up events and only
/// re-asserts down, never forces up.
pub open spec fn mouse_button_step(
    binds: Map<Bind, ControllerAction>,
    fix: bool,
    rep: ControllerReport,
    am: Map<Bind, AnalogState>,
    mbs0: (KeyState, KeyState),
    btn: MouseButton,
    ks: KeyState,
) -> (ControllerReport, Map<Bind, AnalogState>) {
    let mbs = mbs_after(mbs0, btn, ks);
    let s1 = bind_step(binds, rep, am, Bind::Mouse(btn), ks);
    if fix && ks == KeyState::Up {
        let s2 = if mbs.0 == KeyState::Down {
            bind_step(binds, s1.0, s1.1, Bind::Mouse(MouseButton::Left), KeyState::Down)
        } else {
            s1
        };
        if mbs.1 == KeyState::Down {
            bind_step(binds, s2.0, s2.1, Bind::Mouse(MouseButton::Right), KeyState::Down)
        } else {
            s2
        }
    } else {
        s1
    }
}

/// Every live analog entry is bounded and is keyed either by the mouse
/// move source or by a configured bind.
pub open spec fn analog_entries_ok(
    entries: Seq<(Bind, AnalogState)>,
    binds: Map<Bind, ControllerAction>,
) -> bool {
    forall|i: int|
        0 <= i < entries.len() ==> ((#[trigger] entries[i]).1.bounded() && (entries[i].0
            == Bind::MouseMove || binds.contains_key(entries[i].0)))
}

/// The configured mouse move factors and stick: under well-formedness the
/// mouse move bind always resolves to an analog action.
pub open spec fn spec_mouse_move_bind(c: Config) -> AnalogState {
    match al_map(c.binds@)[Bind::MouseMove] {
        ControllerAction::AnalogLeft(x, y) => AnalogState {
            analog_type: AnalogType::Left,
            x: x as i128,
            y: y as i128,
        },
        ControllerAction::AnalogRight(x, y) => AnalogState {
            analog_type: AnalogType::Right,
            x: x as i128,
            y: y as i128,
        },
        ControllerAction::Button(_) => AnalogState { analog_type: AnalogType::Left, x: 0, y: 0 },
    }
}

/// The mouse move contribution recomputed from velocity numerators: each
/// axis is the configured factor times the velocity, evaluated exactly as
/// `factor * numerator / (window_us * FP_ONE)` with one truncating
/// division, in fixed point.
pub open spec fn mouse_state_of(c: Config, vnx: int, vny: int) -> AnalogState {
    let mb = spec_mouse_move_bind(c);
    AnalogState {
        analog_type: mb.analog_type,
        x: div_trunc(mb.x * vnx, c.sample_window_us * FP_ONE) as i128,
        y: div_trunc(mb.y * vny, c.sample_window_us * FP_ONE) as i128,
    }
}

/// Per-stick totals of a contribution list: the exact sums of the x and y
/// values of the entries driving the given stick.
pub open spec fn stick_sum(s: Seq<(Bind, AnalogState)>, side: AnalogType) -> (int, int)
    decreases s.len(),
{
    if s.len() == 0 {
        (0, 0)
    } else {
        let p = stick_sum(s.drop_last(), side);
        if s.last().1.analog_type == side {
            (p.0 + s.last().1.x, p.1 + s.last().1.y)
        } else {
            p
        }
    }
}

/// The configured shaping mode applied to one stick total.
pub open spec fn spec_shape_mode(circularize: bool, x: int, y: int) -> (int, int) {
    if circularize {
        spec_shape_circular(x, y)
    } else {
        spec_shape_linear(x, y)
    }
}

/// Whether a queued event will append to the sample buffer.
pub open spec fn records_sample(event: Option<Event>) -> bool {
    match event {
        Some(Event::MouseMove(_, _)) => true,
        _ => false,
    }
}

/// The engine. It owns the report, the live contribution set and the
/// sample buffer; the binding table inside the configuration is read-only
/// for its whole life.
pub struct EventHandler {
    pub config: Config,
    pub report: ControllerReport,
    pub mouse_samples: MouseSampleQueue,
    pub mouse_button_states: (KeyState, KeyState),
    pub analog_state: BindMap<AnalogState>,
    pub mouse_move_substituted: bool,
}

/// A value bounded by the per-entry contribution limit.
pub open spec fn contrib_bounded(v: int) -> bool {
    -CONTRIB_MAX <= v <= CONTRIB_MAX
}

impl EventHandler {
    /// The engine invariant: a well-formed configuration whose table maps
    /// the mouse move source to an analog action, a well-formed sample
    /// buffer, and a live contribution set with unique, configured keys
    /// and bounded values.
    pub open spec fn wf(&self) -> bool {
        &&& self.config.wf()
        &&& self.mouse_samples.wf()
        &&& self.analog_state.wf()
        &&& analog_entries_ok(self.analog_state@, al_map(self.config.binds@))
        &&& al_map(self.config.binds@).contains_key(Bind::MouseMove)
        &&& al_map(self.config.binds@)[Bind::MouseMove].spec_is_analog()
    }

    /// The sample buffer can absorb one more sample stamped `now_us`.
    pub open spec fn can_record(&self, now_us: u64) -> bool {
        &&& self.mouse_samples@.len() < MAX_SAMPLES
        &&& self.mouse_samples@.len() > 0 ==> self.mouse_samples@.last().t_us <= now_us
    }

    /// Build an engine around a validated configuration. If the
    /// configuration does not map the mouse move source to an analog
    /// action — it is missing or bound to a button — the engine
    /// substitutes the default right-stick mapping with factors
    /// (1.0, -1.0) and flags the substitution, for the caller to surface
    /// as a diagnostic.
    pub fn new(config: Config) -> (r: EventHandler)
        requires
            config.wf(),
            config.binds@.len() < MAX_BINDS,
        ensures
            r.wf(),
            r.report == ControllerReport::spec_zero(),
            r.mouse_samples@ == Seq::<MouseSample>::empty(),
            r.mouse_button_states == (KeyState::Up, KeyState::Up),
            r.analog_state@ == Seq::<(Bind, AnalogState)>::empty(),
            r.config.sensitivity == config.sensitivity,
            r.config.sample_window_us == config.sample_window_us,
            r.config.spin_period_us == config.spin_period_us,
            r.config.oversteer_alert_enabled == config.oversteer_alert_enabled,
            r.config.oversteer_alert_threshold == config.oversteer_alert_threshold,
            r.config.analog_circularize == config.analog_circularize,
            r.config.mouse_button_fix == config.mouse_button_fix,
            ({
                let m0 = al_map(config.binds@);
                if m0.contains_key(Bind::MouseMove) && m0[Bind::MouseMove].spec_is_analog() {
                    al_map(r.config.binds@) == m0 && !r.mouse_move_substituted
                } else {
                    al_map(r.config.binds@) == m0.insert(
                        Bind::MouseMove,
                        ControllerAction::AnalogRight(FP_ONE, (-FP_ONE) as i64),
                    ) && r.mouse_move_substituted
                }
            }),
    {
        let mut config = config;
        let ghost b0 = config.binds@;
        let substituted: bool;
        let needs_default: bool = match config.binds.get(Bind::MouseMove) {
            Some(a) => !a.is_analog(),
            None => true,
        };
        if needs_default {
            config.binds.insert(
                Bind::MouseMove,
                ControllerAction::AnalogRight(FP_ONE, -FP_ONE),
            );
            substituted = true;
            proof {
                assert forall|i: int|
                    0 <= i < config.binds@.len() implies (
                #[trigger] config.binds@[i].1).factors_bounded() by {
                    if config.binds@[i] != (
                        Bind::MouseMove,
                        ControllerAction::AnalogRight(FP_ONE, (-FP_ONE) as i64),
                    ) {
                        let j = choose|j: int|
                            0 <= j < b0.len() && b0[j] == config.binds@[i];
                        assert(b0[j].1.factors_bounded());
                    }
                }
            }
        } else {
            substituted = false;
        }
        EventHandler {
            config,
            report: ControllerReport::zero(),
            mouse_samples: MouseSampleQueue::new(),
            mouse_button_states: (KeyState::Up, KeyState::Up),
            analog_state: BindMap::new(),
            mouse_move_substituted: substituted,
        }
    }

    /// Translate one (bind, up/down) transition into report or
    /// contribution-set mutation, exactly as `bind_step` says: unmapped
    /// binds are silently ignored, button actions move only their own
    /// bit or trigger byte, analog actions upsert or remove only their
    /// own entry.
    pub fn handle_bind(&mut self, bind: Bind, state: KeyState)
        requires
            old(self).wf(),
        ensures
            final(self).wf(),
            final(self).config == old(self).config,
            final(self).mouse_samples == old(self).mouse_samples,
            final(self).mouse_button_states == old(self).mouse_button_states,
            final(self).mouse_move_substituted == old(self).mouse_move_substituted,
            ({
                let s = bind_step(
                    al_map(old(self).config.binds@),
                    old(self).report,
                    al_map(old(self).analog_state@),
                    bind,
                    state,
                );
                final(self).report == s.0 && al_map(final(self).analog_state@) == s.1
            }),
    {
        let ghost a0 = self.analog_state@;
        let action = self.config.binds.get(bind);
        match action {
            None => {},
            Some(ControllerAction::Button(b)) => {
                match b {
                    ControllerButton::LeftTrigger => {
                        if state == KeyState::Down {
                            self.report.b_left_trigger = 255;
                        } else {
                            self.report.b_left_trigger = 0;
                        }
                    },
                    ControllerButton::RightTrigger => {
                        if state == KeyState::Down {
                            self.report.b_right_trigger = 255;
                        } else {
                            self.report.b_right_trigger = 0;
                        }
                    },
                    button => {
                        let m = button.mask();
                        if state == KeyState::Down {
                            self.report.w_buttons = self.report.w_buttons | m;
                        } else {
                            self.report.w_buttons = self.report.w_buttons & !m;
                        }
                    },
                }
            },
            Some(ControllerAction::AnalogLeft(x, y)) => {
                let entry = AnalogState {
                    analog_type: AnalogType::Left,
                    x: x as i128,
                    y: y as i128,
                };
                proof {
                    lemma_binds_value_bounded(self.config.binds@, bind);
                }
                if state == KeyState::Up {
                    self.analog_state.remove(bind);
                } else {
                    self.analog_state.insert(bind, entry);
                }
                proof {
                    lemma_entries_ok_step(
                        a0,
                        self.analog_state@,
                        bind,
                        entry,
                        al_map(self.config.binds@),
                    );
                }
            },
            Some(ControllerAction::AnalogRight(x, y)) => {
                let entry = AnalogState {
                    analog_type: AnalogType::Right,
                    x: x as i128,
                    y: y as i128,
                };
                proof {
                    lemma_binds_value_bounded(self.config.binds@, bind);
                }
                if state == KeyState::Up {
                    self.analog_state.remove(bind);
                } else {
                    self.analog_state.insert(bind, entry);
                }
                proof {
                    lemma_entries_ok_step(
                        a0,
                        self.analog_state@,
                        bind,
                        entry,
                        al_map(self.config.binds@),
                    );
                }
            },
        }
    }

    /// The analog action configured for the mouse move source, as a
    /// contribution template.
    fn get_mouse_move_bind(&self) -> (r: AnalogState)
        requires
            self.wf(),
        ensures
            r == spec_mouse_move_bind(self.config),
            -FACTOR_MAX <= r.x <= FACTOR_MAX,
            -FACTOR_MAX <= r.y <= FACTOR_MAX,
    {
        proof {
            lemma_binds_value_bounded(self.config.binds@, Bind::MouseMove);
        }
        match self.config.binds.get(Bind::MouseMove) {
            Some(ControllerAction::AnalogLeft(x, y)) => AnalogState {
                analog_type: AnalogType::Left,
                x: x as i128,
                y: y as i128,
            },
            Some(ControllerAction::AnalogRight(x, y)) => AnalogState {
                analog_type: AnalogType::Right,
                x: x as i128,
                y: y as i128,
            },
            _ => AnalogState { analog_type: AnalogType::Left, x: 0, y: 0 },
        }
    }

    /// Append one raw mouse motion to the sample buffer, stamped with the
    /// current time.
    pub fn handle_mouse_move(&mut self, x: i32, y: i32, now_us: u64)
        requires
            old(self).wf(),
            old(self).can_record(now_us),
        ensures
            final(self).wf(),
            final(self).config == old(self).config,
            final(self).report == old(self).report,
            final(self).mouse_button_states == old(self).mouse_button_states,
            final(self).analog_state@ == old(self).analog_state@,
            final(self).mouse_move_substituted == old(self).mouse_move_substituted,
            final(self).mouse_samples@ == old(self).mouse_samples@.push(
                MouseSample { dx: x, dy: y, t_us: now_us },
            ),
    {
        self.mouse_samples.record(x, y, now_us);
    }

    /// Recompute the mouse move contribution from the given velocity
    /// numerators and overwrite its entry unconditionally. Unlike
    /// momentary entries this one is replaced every tick and is never
    /// removed by a key-up, since mouse motion has no discrete release.
    fn update_mouse_state(&mut self, vx: i128, vy: i128)
        requires
            old(self).wf(),
            -VEL_NUM_BOUND <= vx <= VEL_NUM_BOUND,
            -VEL_NUM_BOUND <= vy <= VEL_NUM_BOUND,
        ensures
            final(self).wf(),
            final(self).config == old(self).config,
            final(self).report == old(self).report,
            final(self).mouse_button_states == old(self).mouse_button_states,
            final(self).mouse_samples == old(self).mouse_samples,
            final(self).mouse_move_substituted == old(self).mouse_move_substituted,
            al_map(final(self).analog_state@) == al_map(old(self).analog_state@).insert(
                Bind::MouseMove,
                mouse_state_of(old(self).config, vx as int, vy as int),
            ),
    {
        let mb = self.get_mouse_move_bind();
        let den = (self.config.sample_window_us as i128) * 32768;
        proof {
            lemma_mul_bounds(mb.x as int, vx as int, FACTOR_MAX as int, VEL_NUM_BOUND as int);
            lemma_mul_bounds(mb.y as int, vy as int, FACTOR_MAX as int, VEL_NUM_BOUND as int);
            assert(FACTOR_MAX * VEL_NUM_BOUND <= CONTRIB_MAX * (den as int)) by (nonlinear_arith)
                requires
                    den as int >= 32768,
                    FACTOR_MAX == 1048576,
                    CONTRIB_MAX == 0x40000000000000000000000,
                    VEL_NUM_BOUND == 0x80000000 * 65536 * 33554432 * 100,
            ;
            crate::math::lemma_div_trunc_within(
                (mb.x as int) * (vx as int),
                den as int,
                CONTRIB_MAX as int,
            );
            crate::math::lemma_div_trunc_within(
                (mb.y as int) * (vy as int),
                den as int,
                CONTRIB_MAX as int,
            );
        }
        let cx = div_trunc_exec(mb.x * vx, den);
        let cy = div_trunc_exec(mb.y * vy, den);
        let entry = AnalogState { analog_type: mb.analog_type, x: cx, y: cy };
        let ghost a0 = self.analog_state@;
        self.analog_state.insert(Bind::MouseMove, entry);
        proof {
            lemma_entries_ok_step(
                a0,
                self.analog_state@,
                Bind::MouseMove,
                entry,
                al_map(self.config.binds@),
            );
        }
    }

    /// Shape one stick total in linear mode and write it to that stick's
    /// report fields.
    fn set_analog_linear(&mut self, state: AnalogState)
        requires
            old(self).wf(),
            -TOTAL_BOUND <= state.x <= TOTAL_BOUND,
            -TOTAL_BOUND <= state.y <= TOTAL_BOUND,
        ensures
            final(self).wf(),
            final(self).config == old(self).config,
            final(self).mouse_samples == old(self).mouse_samples,
            final(self).mouse_button_states == old(self).mouse_button_states,
            final(self).analog_state@ == old(self).analog_state@,
            final(self).mouse_move_substituted == old(self).mouse_move_substituted,
            ({
                let o = spec_shape_linear(state.x as int, state.y as int);
                match state.analog_type {
                    AnalogType::Left => final(self).report == (ControllerReport {
                        s_thumb_lx: o.0 as i16,
                        s_thumb_ly: o.1 as i16,
                        ..old(self).report
                    }),
                    AnalogType::Right => final(self).report == (ControllerReport {
                        s_thumb_rx: o.0 as i16,
                        s_thumb_ry: o.1 as i16,
                        ..old(self).report
                    }),
                }
            }),
    {
        let (ox, oy) = shape_linear(state.x, state.y);
        match state.analog_type {
            AnalogType::Left => {
                self.report.s_thumb_lx = ox;
                self.report.s_thumb_ly = oy;
            },
            AnalogType::Right => {
                self.report.s_thumb_rx = ox;
                self.report.s_thumb_ry = oy;
            },
        }
    }

    /// Shape one stick total in circularized mode and write it to that
    /// stick's report fields.
    fn set_analog_circularized(&mut self, state: AnalogState)
        requires
            old(self).wf(),
            -TOTAL_BOUND <= state.x <= TOTAL_BOUND,
            -TOTAL_BOUND <= state.y <= TOTAL_BOUND,
        ensures
            final(self).wf(),
            final(self).config == old(self).config,
            final(self).mouse_samples == old(self).mouse_samples,
            final(self).mouse_button_states == old(self).mouse_button_states,
            final(self).analog_state@ == old(self).analog_state@,
            final(self).mouse_move_substituted == old(self).mouse_move_substituted,
            ({
                let o = spec_shape_circular(state.x as int, state.y as int);
                match state.analog_type {
                    AnalogType::Left => final(self).report == (ControllerReport {
                        s_thumb_lx: o.0 as i16,
                        s_thumb_ly: o.1 as i16,
                        ..old(self).report
                    }),
                    AnalogType::Right => final(self).report == (ControllerReport {
                        s_thumb_rx: o.0 as i16,
                        s_thumb_ry: o.1 as i16,
                        ..old(self).report
                    }),
                }
            }),
    {
        let (ox, oy) = shape_circular(state.x, state.y);
        match state.analog_type {
            AnalogType::Left => {
                self.report.s_thumb_lx = ox;
                self.report.s_thumb_ly = oy;
            },
            AnalogType::Right => {
                self.report.s_thumb_rx = ox;
                self.report.s_thumb_ry = oy;
            },
        }
    }

    /// Evaluate the oversteer alert for one stick total and write the
    /// shaped total to that stick's report fields, in the configured
    /// shaping mode.
    fn set_analog(&mut self, state: AnalogState) -> (alert: bool)
        requires
            old(self).wf(),
            -TOTAL_BOUND <= state.x <= TOTAL_BOUND,
            -TOTAL_BOUND <= state.y <= TOTAL_BOUND,
        ensures
            final(self).wf(),
            final(self).config == old(self).config,
            final(self).mouse_samples == old(self).mouse_samples,
            final(self).mouse_button_states == old(self).mouse_button_states,
            final(self).analog_state@ == old(self).analog_state@,
            final(self).mouse_move_substituted == old(self).mouse_move_substituted,
            alert == spec_alert(
                state.x as int,
                state.y as int,
                old(self).config.oversteer_alert_threshold as int,
            ),
            ({
                let o = spec_shape_mode(
                    old(self).config.analog_circularize,
                    state.x as int,
                    state.y as int,
                );
                match state.analog_type {
                    AnalogType::Left => final(self).report == (ControllerReport {
                        s_thumb_lx: o.0 as i16,
                        s_thumb_ly: o.1 as i16,
                        ..old(self).report
                    }),
                    AnalogType::Right => final(self).report == (ControllerReport {
                        s_thumb_rx: o.0 as i16,
                        s_thumb_ry: o.1 as i16,
                        ..old(self).report
                    }),
                }
            }),
    {
        let alert = alert_for(state.x, state.y, self.config.oversteer_alert_threshold);
        if self.config.analog_circularize {
            self.set_analog_circularized(state);
        } else {
            self.set_analog_linear(state);
        }
        alert
    }

    /// One aggregation pass, run unconditionally every tick even with no
    /// active contribution, so a decaying mouse velocity settles to rest:
    /// evict stale samples and read the windowed velocity, overwrite the
    /// mouse move contribution, fold all live contributions into the two
    /// stick totals, then shape and commit each stick and report its
    /// oversteer alert flag — left in the first flag, right in the second.
    pub fn update_analog(&mut self, now_us: u64) -> (alerts: (bool, bool))
        requires
            old(self).wf(),
        ensures
            final(self).wf(),
            final(self).config == old(self).config,
            final(self).mouse_button_states == old(self).mouse_button_states,
            final(self).mouse_move_substituted == old(self).mouse_move_substituted,
            final(self).mouse_samples@ == evict_spec(
                old(self).mouse_samples@,
                now_us,
                old(self).config.sample_window_us,
            ),
            al_map(final(self).analog_state@) == al_map(old(self).analog_state@).insert(
                Bind::MouseMove,
                mouse_state_of(
                    old(self).config,
                    vel_num_x(final(self).mouse_samples@, old(self).config.sensitivity as int),
                    vel_num_y(final(self).mouse_samples@, old(self).config.sensitivity as int),
                ),
            ),
            final(self).report.w_buttons == old(self).report.w_buttons,
            final(self).report.b_left_trigger == old(self).report.b_left_trigger,
            final(self).report.b_right_trigger == old(self).report.b_right_trigger,
            ({
                let ls = stick_sum(final(self).analog_state@, AnalogType::Left);
                let rs = stick_sum(final(self).analog_state@, AnalogType::Right);
                let lo = spec_shape_mode(old(self).config.analog_circularize, ls.0, ls.1);
                let ro = spec_shape_mode(old(self).config.analog_circularize, rs.0, rs.1);
                &&& final(self).report.s_thumb_lx as int == lo.0
                &&& final(self).report.s_thumb_ly as int == lo.1
                &&& final(self).report.s_thumb_rx as int == ro.0
                &&& final(self).report.s_thumb_ry as int == ro.1
                &&& alerts.0 == spec_alert(
                    ls.0,
                    ls.1,
                    old(self).config.oversteer_alert_threshold as int,
                )
                &&& alerts.1 == spec_alert(
                    rs.0,
                    rs.1,
                    old(self).config.oversteer_alert_threshold as int,
                )
            }),
    {
        let w = self.config.sample_window_us;
        let sens = self.config.sensitivity;
        let (vx, vy) = self.mouse_samples.velocity(now_us, w, sens);
        self.update_mouse_state(vx, vy);
        proof {
            lemma_analog_len(self.analog_state@, self.config.binds@);
        }
        let ghost h0 = *self;
        let mut lx: i128 = 0;
        let mut ly: i128 = 0;
        let mut rx: i128 = 0;
        let mut ry: i128 = 0;
        let n = self.analog_state.entries.len();
        let mut i: usize = 0;
        while i < n
            invariant
                *self == h0,
                self.wf(),
                n == self.analog_state@.len(),
                n <= MAX_BINDS + 1,
                i <= n,
                lx as int == stick_sum(self.analog_state@.take(i as int), AnalogType::Left).0,
                ly as int == stick_sum(self.analog_state@.take(i as int), AnalogType::Left).1,
                rx as int == stick_sum(self.analog_state@.take(i as int), AnalogType::Right).0,
                ry as int == stick_sum(self.analog_state@.take(i as int), AnalogType::Right).1,
                -0x40000000000000000000000 * (i as int) <= lx <= 0x40000000000000000000000 * (
                i as int),
                -0x40000000000000000000000 * (i as int) <= ly <= 0x40000000000000000000000 * (
                i as int),
                -0x40000000000000000000000 * (i as int) <= rx <= 0x40000000000000000000000 * (
                i as int),
                -0x40000000000000000000000 * (i as int) <= ry <= 0x40000000000000000000000 * (
                i as int),
            decreases n - i,
        {
            let e = self.analog_state.entries[i];
            proof {
                assert(self.analog_state@.take(i + 1).drop_last() =~= self.analog_state@.take(
                    i as int,
                ));
                assert(self.analog_state@.take(i + 1).last() == self.analog_state@[i as int]);
                assert(self.analog_state@[i as int].1.bounded());
                assert(CONTRIB_MAX == 0x40000000000000000000000);
            }
            match e.1.analog_type {
                AnalogType::Left => {
                    lx = lx + e.1.x;
                    ly = ly + e.1.y;
                },
                AnalogType::Right => {
                    rx = rx + e.1.x;
                    ry = ry + e.1.y;
                },
            }
            i = i + 1;
        }
        proof {
            assert(self.analog_state@.take(n as int) =~= self.analog_state@);
            assert(0x40000000000000000000000 * (n as int) <= 0x40000000000000000000000 * 4097);
        }
        let la = self.set_analog(AnalogState { analog_type: AnalogType::Left, x: lx, y: ly });
        let ra = self.set_analog(AnalogState { analog_type: AnalogType::Right, x: rx, y: ry });
        (la, ra)
    }

    /// Dispatch one inbound event, exactly as `event_step` says: a mouse
    /// motion is buffered; a mouse button event remembers the new
    /// left/right state, runs the bind step and — with the fix enabled,
    /// on up — re-asserts a synthetic down for each still-held side; a
    /// keyboard event runs the bind step; a reset zeroes the report and
    /// both remembered button states.
    pub fn handle_event(&mut self, event: Event, now_us: u64)
        requires
            old(self).wf(),
            records_sample(Some(event)) ==> old(self).can_record(now_us),
        ensures
            final(self).wf(),
            final(self).config == old(self).config,
            final(self).mouse_move_substituted == old(self).mouse_move_substituted,
            ({
                let s = event_step(*old(self), event, now_us);
                &&& final(self).report == s.0
                &&& al_map(final(self).analog_state@) == s.1
                &&& final(self).mouse_button_states == s.2
                &&& final(self).mouse_samples@ == s.3
            }),
    {
        match event {
            Event::MouseMove(x, y) => {
                self.handle_mouse_move(x, y, now_us);
            },
            Event::MouseButton(button, state) => {
                if button == MouseButton::Left {
                    self.mouse_button_states = (state, self.mouse_button_states.1);
                }
                if button == MouseButton::Right {
                    self.mouse_button_states = (self.mouse_button_states.0, state);
                }
                self.handle_bind(Bind::Mouse(button), state);
                if self.config.mouse_button_fix && state == KeyState::Up {
                    if self.mouse_button_states.0 == KeyState::Down {
                        self.handle_bind(Bind::Mouse(MouseButton::Left), KeyState::Down);
                    }
                    if self.mouse_button_states.1 == KeyState::Down {
                        self.handle_bind(Bind::Mouse(MouseButton::Right), KeyState::Down);
                    }
                }
            },
            Event::Keyboard(code, state) => {
                self.handle_bind(Bind::Keyboard(code), state);
            },
            Event::Reset => {
                self.mouse_button_states = (KeyState::Up, KeyState::Up);
                self.report = ControllerReport::zero();
            },
        }
    }

    /// One scheduler tick: dispatch the (at most one) event the caller
    /// dequeued, then run the aggregator unconditionally and hand back the
    /// two per-stick oversteer alert flags. The caller flushes the report
    /// to the device after every tick, whether or not an event arrived.
    pub fn tick(&mut self, event: Option<Event>, now_us: u64) -> (alerts: (bool, bool))
        requires
            old(self).wf(),
            records_sample(event) ==> old(self).can_record(now_us),
        ensures
            final(self).wf(),
            final(self).config == old(self).config,
            final(self).mouse_move_substituted == old(self).mouse_move_substituted,
            ({
                let s = pre_aggregate(*old(self), event, now_us);
                let q2 = evict_spec(s.3, now_us, old(self).config.sample_window_us);
                let ms = mouse_state_of(
                    old(self).config,
                    vel_num_x(q2, old(self).config.sensitivity as int),
                    vel_num_y(q2, old(self).config.sensitivity as int),
                );
                &&& final(self).mouse_button_states == s.2
                &&& final(self).mouse_samples@ == q2
                &&& al_map(final(self).analog_state@) == s.1.insert(Bind::MouseMove, ms)
                &&& final(self).report.w_buttons == s.0.w_buttons
                &&& final(self).report.b_left_trigger == s.0.b_left_trigger
                &&& final(self).report.b_right_trigger == s.0.b_right_trigger
            }),
            ({
                let ls = stick_sum(final(self).analog_state@, AnalogType::Left);
                let rs = stick_sum(final(self).analog_state@, AnalogType::Right);
                let lo = spec_shape_mode(old(self).config.analog_circularize, ls.0, ls.1);
                let ro = spec_shape_mode(old(self).config.analog_circularize, rs.0, rs.1);
                &&& final(self).report.s_thumb_lx as int == lo.0
                &&& final(self).report.s_thumb_ly as int == lo.1
                &&& final(self).report.s_thumb_rx as int == ro.0
                &&& final(self).report.s_thumb_ry as int == ro.1
                &&& alerts.0 == spec_alert(
                    ls.0,
                    ls.1,
                    old(self).config.oversteer_alert_threshold as int,
                )
                &&& alerts.1 == spec_alert(
                    rs.0,
                    rs.1,
                    old(self).config.oversteer_alert_threshold as int,
                )
            }),
    {
        match event {
            Some(e) => self.handle_event(e, now_us),
            None => {},
        }
        self.update_analog(now_us)
    }
}

/// Bind state machine law, button case: for a bind mapped to a button
/// whose report bit (or trigger byte) starts cleared, a down-then-up pair
/// leaves the report exactly as it was, and neither transition touches the
/// live contribution set.
pub proof fn lemma_button_round_trip(
    binds: Map<Bind, ControllerAction>,
    rep: ControllerReport,
    am: Map<Bind, AnalogState>,
    bind: Bind,
    b: ControllerButton,
)
    requires
        binds.contains_key(bind),
        binds[bind] == ControllerAction::Button(b),
        b == ControllerButton::LeftTrigger ==> rep.b_left_trigger == 0,
        b == ControllerButton::RightTrigger ==> rep.b_right_trigger == 0,
        !b.spec_is_trigger() ==> rep.w_buttons & spec_button_mask(b) == 0,
    ensures
        ({
            let s1 = bind_step(binds, rep, am, bind, KeyState::Down);
            let s2 = bind_step(binds, s1.0, s1.1, bind, KeyState::Up);
            s1.1 == am && s2.1 == am && s2.0 == rep
        }),
{
    if !b.spec_is_trigger() {
        let w = rep.w_buttons;
        let m = spec_button_mask(b);
        assert((w | m) & !m == w) by (bit_vector)
            requires
                w & m == 0u16,
        ;
    }
}

/// Bind state machine law, analog case: for a bind mapped to an analog
/// action and not currently held, down inserts exactly one live entry
/// keyed by that bind, up removes it again, and a second up is a no-op;
/// the report never moves.
pub proof fn lemma_analog_round_trip(
    binds: Map<Bind, ControllerAction>,
    rep: ControllerReport,
    am: Map<Bind, AnalogState>,
    bind: Bind,
)
    requires
        binds.contains_key(bind),
        binds[bind].spec_is_analog(),
        !am.contains_key(bind),
    ensures
        ({
            let s1 = bind_step(binds, rep, am, bind, KeyState::Down);
            let s2 = bind_step(binds, s1.0, s1.1, bind, KeyState::Up);
            let s3 = bind_step(binds, s2.0, s2.1, bind, KeyState::Up);
            &&& s1.0 == rep
            &&& s1.1.contains_key(bind)
            &&& s1.1.dom() == am.dom().insert(bind)
            &&& s2 == (rep, am)
            &&& s3 == (rep, am)
        }),
{
    let s1 = bind_step(binds, rep, am, bind, KeyState::Down);
    assert(s1.1.dom() =~= am.dom().insert(bind));
    assert(s1.1.remove(bind) =~= am);
    assert(am.remove(bind) =~= am);
}

/// The event dispatch step, before aggregation: what one inbound event
/// does to the report, the live contribution set, the remembered mouse
/// button states and the sample buffer. A reset zeroes the whole report
/// and forgets both remembered button states, but deliberately leaves the
/// live contribution set and the sample buffer untouched.
pub open spec fn event_step(pre: EventHandler, event: Event, now_us: u64) -> (
    ControllerReport,
    Map<Bind, AnalogState>,
    (KeyState, KeyState),
    Seq<MouseSample>,
) {
    match event {
        Event::MouseMove(dx, dy) => (
            pre.report,
            al_map(pre.analog_state@),
            pre.mouse_button_states,
            pre.mouse_samples@.push(MouseSample { dx, dy, t_us: now_us }),
        ),
        Event::MouseButton(btn, ks) => {
            let s = mouse_button_step(
                al_map(pre.config.binds@),
                pre.config.mouse_button_fix,
                pre.report,
                al_map(pre.analog_state@),
                pre.mouse_button_states,
                btn,
                ks,
            );
            (s.0, s.1, mbs_after(pre.mouse_button_states, btn, ks), pre.mouse_samples@)
        },
        Event::Keyboard(code, ks) => {
            let s = bind_step(
                al_map(pre.config.binds@),
                pre.report,
                al_map(pre.analog_state@),
                Bind::Keyboard(code),
                ks,
            );
            (s.0, s.1, pre.mouse_button_states, pre.mouse_samples@)
        },
        Event::Reset => (
            ControllerReport::spec_zero(),
            al_map(pre.analog_state@),
            (KeyState::Up, KeyState::Up),
            pre.mouse_samples@,
        ),
    }
}

/// The state handed to the aggregator: the event step's result, or the
/// unchanged state when no event arrived this tick.
pub open spec fn pre_aggregate(pre: EventHandler, event: Option<Event>, now_us: u64) -> (
    ControllerReport,
    Map<Bind, AnalogState>,
    (KeyState, KeyState),
    Seq<MouseSample>,
) {
    match event {
        Some(e) => event_step(pre, e, now_us),
        None => (
            pre.report,
            al_map(pre.analog_state@),
            pre.mouse_button_states,
            pre.mouse_samples@,
        ),
    }
}

/// A looked-up binding's factors inherit the table's bound.
proof fn lemma_binds_value_bounded(binds: Seq<(Bind, ControllerAction)>, k: Bind)
    requires
        unique_keys(binds),
        forall|i: int| 0 <= i < binds.len() ==> (#[trigger] binds[i].1).factors_bounded(),
        al_map(binds).contains_key(k),
    ensures
        al_map(binds)[k].factors_bounded(),
{
    lemma_al_map_dom(binds, k);
    let i = choose|i: int| 0 <= i < binds.len() && binds[i].0 == k;
    lemma_al_map_index(binds, i);
}

/// Upserting a bounded, configured entry (or removing any entry) keeps
/// every live analog entry bounded and configured.
proof fn lemma_entries_ok_step(
    s0: Seq<(Bind, AnalogState)>,
    s1: Seq<(Bind, AnalogState)>,
    k: Bind,
    v: AnalogState,
    binds: Map<Bind, ControllerAction>,
)
    requires
        analog_entries_ok(s0, binds),
        v.bounded(),
        k == Bind::MouseMove || binds.contains_key(k),
        forall|i: int| 0 <= i < s1.len() ==> (s1[i] == (k, v) || s0.contains(#[trigger] s1[i])),
    ensures
        analog_entries_ok(s1, binds),
{
    assert forall|i: int|
        0 <= i < s1.len() implies ((#[trigger] s1[i]).1.bounded() && (s1[i].0 == Bind::MouseMove
        || binds.contains_key(s1[i].0))) by {
        if s1[i] != (k, v) {
            let j = choose|j: int| 0 <= j < s0.len() && s0[j] == s1[i];
            assert(s0[j].1.bounded());
        }
    }
}

/// With unique keys on both sides, the live contribution set can hold at
/// most one entry per configured bind plus the mouse move entry.
proof fn lemma_analog_len(
    analog: Seq<(Bind, AnalogState)>,
    binds: Seq<(Bind, ControllerAction)>,
)
    requires
        unique_keys(analog),
        unique_keys(binds),
        analog_entries_ok(analog, al_map(binds)),
    ensures
        analog.len() <= binds.len() + 1,
{
    lemma_al_map_len(analog);
    lemma_al_map_len(binds);
    let d1 = al_map(analog).dom();
    let d2 = al_map(binds).dom().insert(Bind::MouseMove);
    assert forall|k: Bind| d1.contains(k) implies d2.contains(k) by {
        lemma_al_map_dom(analog, k);
        let i = choose|i: int| 0 <= i < analog.len() && analog[i].0 == k;
        assert(analog[i].1.bounded());
    };
    vstd::set::axiom_set_insert_finite(al_map(binds).dom(), Bind::MouseMove);
    vstd::set::axiom_set_insert_len(al_map(binds).dom(), Bind::MouseMove);
    lemma_len_subset(d1, d2);
}

} // verus!
