use mousestick::bindmap::BindMap;
use mousestick::Bind;
use mousestick::Config;
use mousestick::ControllerAction;
use mousestick::ControllerButton;
use mousestick::KeyState;
use mousestick::MouseButton;

#[test]
fn config_default_matches_stock_tuning() {
    let c = Config::default();
    assert_eq!(c.sensitivity, 163840);
    assert_eq!(c.sample_window_us, 20000);
    assert_eq!(c.spin_period_us, 2000);
    assert!(!c.oversteer_alert_enabled);
    assert_eq!(c.oversteer_alert_threshold, 49152);
    assert!(!c.analog_circularize);
    assert!(!c.mouse_button_fix);
}

#[test]
fn config_rejects_out_of_range_numbers() {
    let c = Config::new(33554433, 20000, 2000, false, 0, false, false, BindMap::new());
    assert!(c.is_none());
    let c = Config::new(163840, 0, 2000, false, 0, false, false, BindMap::new());
    assert!(c.is_none());
    let mut binds = BindMap::new();
    binds.insert(Bind::Keyboard(1), ControllerAction::AnalogLeft(1048577, 0));
    let c = Config::new(163840, 20000, 2000, false, 0, false, false, binds);
    assert!(c.is_none());
    let c = Config::new(163840, 20000, 2000, false, 0, false, false, BindMap::new());
    assert!(c.is_some());
}

#[test]
fn resolve_is_a_pure_lookup() {
    let mut binds = BindMap::new();
    binds.insert(Bind::Keyboard(30), ControllerAction::Button(ControllerButton::A));
    let c = Config::new(163840, 20000, 2000, false, 0, false, false, binds).unwrap();
    assert_eq!(
        c.resolve(Bind::Keyboard(30)),
        Some(ControllerAction::Button(ControllerButton::A))
    );
    assert_eq!(c.resolve(Bind::Keyboard(31)), None);
}

#[test]
fn button_masks_match_the_report_layout() {
    assert_eq!(ControllerButton::DpadUp.mask(), 1);
    assert_eq!(ControllerButton::DpadDown.mask(), 2);
    assert_eq!(ControllerButton::DpadLeft.mask(), 4);
    assert_eq!(ControllerButton::DpadRight.mask(), 8);
    assert_eq!(ControllerButton::Start.mask(), 16);
    assert_eq!(ControllerButton::Back.mask(), 32);
    assert_eq!(ControllerButton::LeftThumb.mask(), 64);
    assert_eq!(ControllerButton::RightThumb.mask(), 128);
    assert_eq!(ControllerButton::LeftShoulder.mask(), 256);
    assert_eq!(ControllerButton::RightShoulder.mask(), 512);
    assert_eq!(ControllerButton::Guide.mask(), 1024);
    assert_eq!(ControllerButton::A.mask(), 4096);
    assert_eq!(ControllerButton::B.mask(), 8192);
    assert_eq!(ControllerButton::X.mask(), 16384);
    assert_eq!(ControllerButton::Y.mask(), 32768);
    assert!(ControllerButton::LeftTrigger.is_trigger());
    assert!(ControllerButton::RightTrigger.is_trigger());
    assert!(!ControllerButton::A.is_trigger());
}

#[test]
fn labels_name_the_variants() {
    assert_eq!(ControllerButton::DpadUp.label(), "DpadUp");
    assert_eq!(ControllerButton::LeftShoulder.label(), "LeftShoulder");
    assert_eq!(ControllerButton::Y.label(), "Y");
    assert_eq!(ControllerButton::RightTrigger.label(), "RightTrigger");
    assert_eq!(MouseButton::Left.label(), "Left");
    assert_eq!(MouseButton::Button5.label(), "Button5");
    assert_eq!(KeyState::Up.label(), "Up");
    assert_eq!(KeyState::Down.label(), "Down");
}

#[test]
fn key_state_from_release_flag() {
    assert_eq!(KeyState::from_up_flag(true), KeyState::Up);
    assert_eq!(KeyState::from_up_flag(false), KeyState::Down);
}

#[test]
fn bind_map_insert_get_remove() {
    let mut m: BindMap<ControllerAction> = BindMap::new();
    assert_eq!(m.len(), 0);
    m.insert(Bind::Mouse(MouseButton::Middle), ControllerAction::Button(ControllerButton::Guide));
    m.insert(Bind::Keyboard(7), ControllerAction::AnalogLeft(1, -1));
    assert_eq!(m.len(), 2);
    assert_eq!(
        m.get(Bind::Mouse(MouseButton::Middle)),
        Some(ControllerAction::Button(ControllerButton::Guide))
    );
    assert_eq!(m.get(Bind::MouseMove), None);
    // Upsert replaces rather than duplicates.
    m.insert(Bind::Keyboard(7), ControllerAction::AnalogRight(2, 2));
    assert_eq!(m.len(), 2);
    assert_eq!(m.get(Bind::Keyboard(7)), Some(ControllerAction::AnalogRight(2, 2)));
    m.remove(Bind::Keyboard(7));
    assert_eq!(m.len(), 1);
    assert_eq!(m.get(Bind::Keyboard(7)), None);
    assert!(!m.contains_key(Bind::Keyboard(7)));
    assert!(m.contains_key(Bind::Mouse(MouseButton::Middle)));
    // Removing an absent key is a no-op.
    m.remove(Bind::Keyboard(7));
    assert_eq!(m.len(), 1);
}
