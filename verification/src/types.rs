//! Plain value types shared by the whole engine: key transition states,
//! physical mouse buttons, the virtual controller's buttons, and the inbound
//! event alphabet.

use vstd::prelude::*;

verus! {

/// Up/down state of a physical key or mouse button.
#[derive(Clone, Copy, Debug, PartialEq, Eq, Hash, Structural)]
pub enum KeyState {
    Up,
    Down,
}

impl KeyState {
    /// The state reported by a driver that flags releases: `true` means the
    /// event was a release.
    pub fn from_up_flag(up: bool) -> (r: KeyState)
        ensures
            r == (if up {
                KeyState::Up
            } else {
                KeyState::Down
            }),
    {
        if up {
            KeyState::Up
        } else {
            KeyState::Down
        }
    }

    /// Human-readable variant name.
    pub fn label(&self) -> (r: &'static str)
        ensures
            r@ == spec_key_state_label(*self),
    {
        match self {
            KeyState::Up => "Up",
            KeyState::Down => "Down",
        }
    }
}

pub open spec fn spec_key_state_label(s: KeyState) -> Seq<char> {
    match s {
        KeyState::Up => "Up"@,
        KeyState::Down => "Down"@,
    }
}

/// A physical mouse button.
#[derive(Clone, Copy, Debug, PartialEq, Eq, Hash, Structural)]
pub enum MouseButton {
    Left,
    Right,
    Middle,
    Button4,
    Button5,
}

impl MouseButton {
    /// Human-readable variant name.
    pub fn label(&self) -> (r: &'static str)
        ensures
            r@ == spec_mouse_button_label(*self),
    {
        match self {
            MouseButton::Left => "Left",
            MouseButton::Right => "Right",
            MouseButton::Middle => "Middle",
            MouseButton::Button4 => "Button4",
            MouseButton::Button5 => "Button5",
        }
    }
}

pub open spec fn spec_mouse_button_label(b: MouseButton) -> Seq<char> {
    match b {
        MouseButton::Left => "Left"@,
        MouseButton::Right => "Right"@,
        MouseButton::Middle => "Middle"@,
        MouseButton::Button4 => "Button4"@,
        MouseButton::Button5 => "Button5"@,
    }
}

/// A button of the dual-stick, 4-trigger/14-button virtual controller.
/// The two triggers are not part of the button bitmask: they drive the
/// 8-bit trigger bytes of the report instead.
#[derive(Clone, Copy, Debug, PartialEq, Eq, Hash, Structural)]
pub enum ControllerButton {
    DpadUp,
    DpadDown,
    DpadLeft,
    DpadRight,
    Start,
    Back,
    LeftThumb,
    RightThumb,
    LeftShoulder,
    RightShoulder,
    Guide,
    A,
    B,
    X,
    Y,
    LeftTrigger,
    RightTrigger,
}

/// Report bitmask bit of a bitmask-class button; 0 for the two
/// trigger-class buttons, which have no bit in the mask.
pub open spec fn spec_button_mask(b: ControllerButton) -> u16 {
    match b {
        ControllerButton::DpadUp => 1,
        ControllerButton::DpadDown => 2,
        ControllerButton::DpadLeft => 4,
        ControllerButton::DpadRight => 8,
        ControllerButton::Start => 16,
        ControllerButton::Back => 32,
        ControllerButton::LeftThumb => 64,
        ControllerButton::RightThumb => 128,
        ControllerButton::LeftShoulder => 256,
        ControllerButton::RightShoulder => 512,
        ControllerButton::Guide => 1024,
        ControllerButton::A => 4096,
        ControllerButton::B => 8192,
        ControllerButton::X => 16384,
        ControllerButton::Y => 32768,
        ControllerButton::LeftTrigger => 0,
        ControllerButton::RightTrigger => 0,
    }
}

impl ControllerButton {
    /// Whether this button drives a trigger byte instead of a bitmask bit.
    pub open spec fn spec_is_trigger(self) -> bool {
        self == ControllerButton::LeftTrigger || self == ControllerButton::RightTrigger
    }

    /// Whether this button drives a trigger byte instead of a bitmask bit.
    pub fn is_trigger(&self) -> (r: bool)
        ensures
            r == self.spec_is_trigger(),
    {
        match self {
            ControllerButton::LeftTrigger => true,
            ControllerButton::RightTrigger => true,
            _ => false,
        }
    }

    /// Report bitmask bit of this button (0 for the triggers).
    pub fn mask(&self) -> (r: u16)
        ensures
            r == spec_button_mask(*self),
    {
        match self {
            ControllerButton::DpadUp => 1,
            ControllerButton::DpadDown => 2,
            ControllerButton::DpadLeft => 4,
            ControllerButton::DpadRight => 8,
            ControllerButton::Start => 16,
            ControllerButton::Back => 32,
            ControllerButton::LeftThumb => 64,
            ControllerButton::RightThumb => 128,
            ControllerButton::LeftShoulder => 256,
            ControllerButton::RightShoulder => 512,
            ControllerButton::Guide => 1024,
            ControllerButton::A => 4096,
            ControllerButton::B => 8192,
            ControllerButton::X => 16384,
            ControllerButton::Y => 32768,
            ControllerButton::LeftTrigger => 0,
            ControllerButton::RightTrigger => 0,
        }
    }

    /// Human-readable variant name.
    pub fn label(&self) -> (r: &'static str)
        ensures
            r@ == spec_controller_button_label(*self),
    {
        match self {
            ControllerButton::DpadUp => "DpadUp",
            ControllerButton::DpadDown => "DpadDown",
            ControllerButton::DpadLeft => "DpadLeft",
            ControllerButton::DpadRight => "DpadRight",
            ControllerButton::Start => "Start",
            ControllerButton::Back => "Back",
            ControllerButton::LeftThumb => "LeftThumb",
            ControllerButton::RightThumb => "RightThumb",
            ControllerButton::LeftShoulder => "LeftShoulder",
            ControllerButton::RightShoulder => "RightShoulder",
            ControllerButton::Guide => "Guide",
            ControllerButton::A => "A",
            ControllerButton::B => "B",
            ControllerButton::X => "X",
            ControllerButton::Y => "Y",
            ControllerButton::LeftTrigger => "LeftTrigger",
            ControllerButton::RightTrigger => "RightTrigger",
        }
    }
}

pub open spec fn spec_controller_button_label(b: ControllerButton) -> Seq<char> {
    match b {
        ControllerButton::DpadUp => "DpadUp"@,
        ControllerButton::DpadDown => "DpadDown"@,
        ControllerButton::DpadLeft => "DpadLeft"@,
        ControllerButton::DpadRight => "DpadRight"@,
        ControllerButton::Start => "Start"@,
        ControllerButton::Back => "Back"@,
        ControllerButton::LeftThumb => "LeftThumb"@,
        ControllerButton::RightThumb => "RightThumb"@,
        ControllerButton::LeftShoulder => "LeftShoulder"@,
        ControllerButton::RightShoulder => "RightShoulder"@,
        ControllerButton::Guide => "Guide"@,
        ControllerButton::A => "A"@,
        ControllerButton::B => "B"@,
        ControllerButton::X => "X"@,
        ControllerButton::Y => "Y"@,
        ControllerButton::LeftTrigger => "LeftTrigger"@,
        ControllerButton::RightTrigger => "RightTrigger"@,
    }
}

/// One inbound event from the input-capture collaborator. Keyboard scan
/// codes arrive as their raw 16-bit value.
#[derive(Clone, Copy, Debug, PartialEq, Eq, Structural)]
pub enum Event {
    MouseMove(i32, i32),
    MouseButton(MouseButton, KeyState),
    Keyboard(u16, KeyState),
    Reset,
}

} // verus!
