use mousestick::bindmap::BindMap;
use mousestick::AnalogState;
use mousestick::AnalogType;
use mousestick::Bind;
use mousestick::Config;
use mousestick::ControllerAction;
use mousestick::ControllerButton;
use mousestick::ControllerReport;
use mousestick::Event;
use mousestick::EventHandler;
use mousestick::KeyState;
use mousestick::MouseButton;

fn config_with(binds: BindMap<ControllerAction>, fix: bool, circularize: bool) -> Config {
    Config::new(163840, 20000, 2000, true, 49152, circularize, fix, binds).unwrap()
}

#[test]
fn button_down_up_round_trip() {
    let mut binds = BindMap::new();
    binds.insert(Bind::Keyboard(30), ControllerAction::Button(ControllerButton::A));
    binds.insert(
        Bind::MouseMove,
        ControllerAction::AnalogRight(32768, -32768),
    );
    let mut h = EventHandler::new(config_with(binds, false, false));
    h.handle_bind(Bind::Keyboard(30), KeyState::Down);
    assert_eq!(h.report.w_buttons, 4096);
    h.handle_bind(Bind::Keyboard(30), KeyState::Up);
    assert_eq!(h.report.w_buttons, 0);
    assert_eq!(h.report, ControllerReport::zero());
}

#[test]
fn button_down_leaves_other_bits_alone() {
    let mut binds = BindMap::new();
    binds.insert(Bind::Keyboard(30), ControllerAction::Button(ControllerButton::A));
    binds.insert(Bind::Keyboard(48), ControllerAction::Button(ControllerButton::B));
    binds.insert(
        Bind::MouseMove,
        ControllerAction::AnalogRight(32768, -32768),
    );
    let mut h = EventHandler::new(config_with(binds, false, false));
    h.handle_bind(Bind::Keyboard(30), KeyState::Down);
    h.handle_bind(Bind::Keyboard(48), KeyState::Down);
    assert_eq!(h.report.w_buttons, 4096 | 8192);
    h.handle_bind(Bind::Keyboard(48), KeyState::Up);
    assert_eq!(h.report.w_buttons, 4096);
}

#[test]
fn triggers_set_and_clear_their_bytes() {
    let mut binds = BindMap::new();
    binds.insert(
        Bind::Keyboard(1),
        ControllerAction::Button(ControllerButton::LeftTrigger),
    );
    binds.insert(
        Bind::Keyboard(2),
        ControllerAction::Button(ControllerButton::RightTrigger),
    );
    binds.insert(
        Bind::MouseMove,
        ControllerAction::AnalogRight(32768, -32768),
    );
    let mut h = EventHandler::new(config_with(binds, false, false));
    h.handle_bind(Bind::Keyboard(1), KeyState::Down);
    h.handle_bind(Bind::Keyboard(2), KeyState::Down);
    assert_eq!(h.report.b_left_trigger, 255);
    assert_eq!(h.report.b_right_trigger, 255);
    assert_eq!(h.report.w_buttons, 0);
    h.handle_bind(Bind::Keyboard(1), KeyState::Up);
    assert_eq!(h.report.b_left_trigger, 0);
    assert_eq!(h.report.b_right_trigger, 255);
}

#[test]
fn analog_down_inserts_and_up_removes_idempotently() {
    let mut binds = BindMap::new();
    binds.insert(Bind::Keyboard(17), ControllerAction::AnalogLeft(32768, 16384));
    binds.insert(
        Bind::MouseMove,
        ControllerAction::AnalogRight(32768, -32768),
    );
    let mut h = EventHandler::new(config_with(binds, false, false));
    h.handle_bind(Bind::Keyboard(17), KeyState::Down);
    assert_eq!(
        h.analog_state.get(Bind::Keyboard(17)),
        Some(AnalogState { analog_type: AnalogType::Left, x: 32768, y: 16384 })
    );
    assert_eq!(h.analog_state.len(), 1);
    // Re-assertion overwrites, it does not duplicate.
    h.handle_bind(Bind::Keyboard(17), KeyState::Down);
    assert_eq!(h.analog_state.len(), 1);
    h.handle_bind(Bind::Keyboard(17), KeyState::Up);
    assert_eq!(h.analog_state.get(Bind::Keyboard(17)), None);
    assert_eq!(h.analog_state.len(), 0);
    // A second up is a no-op.
    h.handle_bind(Bind::Keyboard(17), KeyState::Up);
    assert_eq!(h.analog_state.len(), 0);
    assert_eq!(h.report, ControllerReport::zero());
}

#[test]
fn unmapped_bind_is_a_silent_no_op() {
    let mut binds = BindMap::new();
    binds.insert(
        Bind::MouseMove,
        ControllerAction::AnalogRight(32768, -32768),
    );
    let mut h = EventHandler::new(config_with(binds, false, false));
    h.handle_bind(Bind::Keyboard(99), KeyState::Down);
    assert_eq!(h.report, ControllerReport::zero());
    assert_eq!(h.analog_state.len(), 0);
}

#[test]
fn missing_mouse_move_bind_is_substituted() {
    let h = EventHandler::new(config_with(BindMap::new(), false, false));
    assert!(h.mouse_move_substituted);
    assert_eq!(
        h.config.binds.get(Bind::MouseMove),
        Some(ControllerAction::AnalogRight(32768, -32768))
    );
}

#[test]
fn button_mapped_mouse_move_bind_is_substituted() {
    let mut binds = BindMap::new();
    binds.insert(
        Bind::MouseMove,
        ControllerAction::Button(ControllerButton::A),
    );
    let h = EventHandler::new(config_with(binds, false, false));
    assert!(h.mouse_move_substituted);
    assert_eq!(
        h.config.binds.get(Bind::MouseMove),
        Some(ControllerAction::AnalogRight(32768, -32768))
    );
}

#[test]
fn analog_mouse_move_bind_is_kept() {
    let mut binds = BindMap::new();
    binds.insert(Bind::MouseMove, ControllerAction::AnalogLeft(16384, 16384));
    let h = EventHandler::new(config_with(binds, false, false));
    assert!(!h.mouse_move_substituted);
    assert_eq!(
        h.config.binds.get(Bind::MouseMove),
        Some(ControllerAction::AnalogLeft(16384, 16384))
    );
}

// Mouse button fix scenario: left and right are down, the report's left
// bit is spuriously lost upstream, and a right-up event arrives. The fix
// re-issues a down for the still-held left and must not re-issue one for
// right, whose remembered state is now up.
#[test]
fn mouse_button_fix_reasserts_still_held_button() {
    let mut binds = BindMap::new();
    binds.insert(
        Bind::Mouse(MouseButton::Left),
        ControllerAction::Button(ControllerButton::A),
    );
    binds.insert(
        Bind::Mouse(MouseButton::Right),
        ControllerAction::Button(ControllerButton::B),
    );
    binds.insert(
        Bind::MouseMove,
        ControllerAction::AnalogRight(32768, -32768),
    );
    let mut h = EventHandler::new(config_with(binds, true, false));
    h.handle_event(Event::MouseButton(MouseButton::Left, KeyState::Down), 0);
    h.handle_event(Event::MouseButton(MouseButton::Right, KeyState::Down), 0);
    assert_eq!(h.report.w_buttons, 4096 | 8192);
    // Simulate the upstream defect the fix compensates for.
    h.report.w_buttons = 0;
    h.handle_event(Event::MouseButton(MouseButton::Right, KeyState::Up), 0);
    assert_eq!(h.report.w_buttons, 4096);
    assert_eq!(h.mouse_button_states, (KeyState::Down, KeyState::Up));
}

#[test]
fn mouse_button_fix_does_nothing_on_down_events() {
    let mut binds = BindMap::new();
    binds.insert(
        Bind::Mouse(MouseButton::Left),
        ControllerAction::Button(ControllerButton::A),
    );
    binds.insert(
        Bind::MouseMove,
        ControllerAction::AnalogRight(32768, -32768),
    );
    let mut h = EventHandler::new(config_with(binds, true, false));
    h.handle_event(Event::MouseButton(MouseButton::Left, KeyState::Down), 0);
    assert_eq!(h.report.w_buttons, 4096);
    assert_eq!(h.mouse_button_states, (KeyState::Down, KeyState::Up));
}

// Reset scenario: all button bits, both triggers and all four stick axes
// read zero afterwards, and the remembered mouse button states read up —
// regardless of prior state. The live analog entries survive a reset by
// design.
#[test]
fn reset_zeroes_report_and_button_memory() {
    let mut binds = BindMap::new();
    binds.insert(
        Bind::Mouse(MouseButton::Left),
        ControllerAction::Button(ControllerButton::X),
    );
    binds.insert(
        Bind::Keyboard(1),
        ControllerAction::Button(ControllerButton::LeftTrigger),
    );
    binds.insert(Bind::Keyboard(2), ControllerAction::AnalogLeft(16384, 16384));
    binds.insert(
        Bind::MouseMove,
        ControllerAction::AnalogRight(32768, -32768),
    );
    let mut h = EventHandler::new(config_with(binds, false, false));
    h.handle_event(Event::MouseButton(MouseButton::Left, KeyState::Down), 0);
    h.handle_event(Event::Keyboard(1, KeyState::Down), 0);
    h.tick(Some(Event::Keyboard(2, KeyState::Down)), 0);
    assert_ne!(h.report, ControllerReport::zero());
    h.handle_event(Event::Reset, 0);
    assert_eq!(h.report, ControllerReport::zero());
    assert_eq!(h.mouse_button_states, (KeyState::Up, KeyState::Up));
    assert!(h.analog_state.get(Bind::Keyboard(2)).is_some());
}

// A burst of mouse motion drives the substituted right-stick mapping: 400
// counts inside a 20 ms window at sensitivity 5.0 is a velocity of 10.0,
// shaped down to full deflection; the y factor is negative and the y sum
// is zero.
#[test]
fn mouse_motion_drives_right_stick() {
    let mut h = EventHandler::new(config_with(BindMap::new(), false, false));
    let alerts = h.tick(Some(Event::MouseMove(400, 0)), 0);
    assert_eq!(h.report.s_thumb_rx, 32767);
    assert_eq!(h.report.s_thumb_ry, 0);
    assert_eq!(h.report.s_thumb_lx, 0);
    assert_eq!(h.report.s_thumb_ly, 0);
    // Velocity 10.0 is far past the 1.5 alert threshold on the right
    // stick only.
    assert_eq!(alerts, (false, true));
}

// With no fresh samples the windowed velocity decays to rest even without
// events: the aggregator runs unconditionally every tick.
#[test]
fn mouse_velocity_decays_to_rest() {
    let mut h = EventHandler::new(config_with(BindMap::new(), false, false));
    h.tick(Some(Event::MouseMove(400, 100)), 0);
    assert_ne!(h.report.s_thumb_rx, 0);
    let alerts = h.tick(None, 30000);
    assert_eq!(h.report.s_thumb_rx, 0);
    assert_eq!(h.report.s_thumb_ry, 0);
    assert_eq!(alerts, (false, false));
    assert_eq!(h.mouse_samples.len(), 0);
}

// Oversteer alert: a held bind contributing (1.5, 0) to the left stick
// trips enable for that stick's evaluation within the same tick.
#[test]
fn oversteer_alert_fires_per_stick() {
    let mut binds = BindMap::new();
    binds.insert(Bind::Keyboard(5), ControllerAction::AnalogLeft(49152, 0));
    binds.insert(
        Bind::MouseMove,
        ControllerAction::AnalogRight(32768, -32768),
    );
    let mut h = EventHandler::new(config_with(binds, false, false));
    let alerts = h.tick(Some(Event::Keyboard(5, KeyState::Down)), 0);
    assert_eq!(alerts, (true, false));
    assert_eq!(h.report.s_thumb_lx, 32767);
    assert_eq!(h.report.s_thumb_ly, 0);
    let alerts = h.tick(Some(Event::Keyboard(5, KeyState::Up)), 100);
    assert_eq!(alerts, (false, false));
    assert_eq!(h.report.s_thumb_lx, 0);
}

// Two momentary contributions to the same stick sum before shaping.
#[test]
fn momentary_contributions_sum_per_stick() {
    let mut binds = BindMap::new();
    binds.insert(Bind::Keyboard(1), ControllerAction::AnalogLeft(8192, 0));
    binds.insert(Bind::Keyboard(2), ControllerAction::AnalogLeft(8192, -4096));
    binds.insert(
        Bind::MouseMove,
        ControllerAction::AnalogRight(32768, -32768),
    );
    let mut h = EventHandler::new(config_with(binds, false, false));
    h.tick(Some(Event::Keyboard(1, KeyState::Down)), 0);
    let alerts = h.tick(Some(Event::Keyboard(2, KeyState::Down)), 10);
    assert_eq!(h.report.s_thumb_lx, 16384);
    assert_eq!(h.report.s_thumb_ly, -4096);
    assert_eq!(alerts, (false, false));
}

// Circularized mode writes the unclamped scaled vector, saturated.
#[test]
fn circular_mode_saturates_the_stick_write() {
    let mut binds = BindMap::new();
    binds.insert(Bind::Keyboard(9), ControllerAction::AnalogRight(32768, 32768));
    binds.insert(Bind::MouseMove, ControllerAction::AnalogLeft(32768, -32768));
    let mut h = EventHandler::new(config_with(binds, false, true));
    h.tick(Some(Event::Keyboard(9, KeyState::Down)), 0);
    assert_eq!(h.report.s_thumb_rx, 32767);
    assert_eq!(h.report.s_thumb_ry, 32767);
}

// In linear mode the same diagonal total stays inside the unit box and is
// written unscaled.
#[test]
fn linear_mode_keeps_unit_box_totals() {
    let mut binds = BindMap::new();
    binds.insert(Bind::Keyboard(9), ControllerAction::AnalogRight(16384, -16384));
    binds.insert(Bind::MouseMove, ControllerAction::AnalogLeft(32768, -32768));
    let mut h = EventHandler::new(config_with(binds, false, false));
    h.tick(Some(Event::Keyboard(9, KeyState::Down)), 0);
    assert_eq!(h.report.s_thumb_rx, 16384);
    assert_eq!(h.report.s_thumb_ry, -16384);
}
