//! A verified core for a mouse-and-keyboard to virtual game-controller
//! mapper: a binding table resolves input sources to controller actions, a
//! time-windowed sample buffer smooths raw mouse deltas into a velocity, a
//! bind state machine toggles buttons and momentary analog contributions,
//! and an aggregator folds every live contribution into two shaped stick
//! outputs plus an oversteer alert, once per tick.
//!
//! All analog quantities are fixed-point integers in units of 1/32768
//! (`FP_ONE`), so every arithmetic step carries an exact contract; the
//! surrounding (unverified) application converts configuration floats to
//! fixed point at the edge and forwards reports to the device driver.

pub mod bindmap;
pub mod binds;
pub mod config;
pub mod handler;
pub mod math;
pub mod report;
pub mod samples;
pub mod shape;
pub mod types;

pub use binds::Axis;
pub use binds::Bind;
pub use binds::ControllerAction;
pub use config::AnalogState;
pub use config::AnalogType;
pub use config::Config;
pub use handler::EventHandler;
pub use report::ControllerReport;
pub use types::ControllerButton;
pub use types::Event;
pub use types::KeyState;
pub use types::MouseButton;
