//! Screen rotation driven by accelerometer readings.
//!
//! The library classifies the device's orientation, decides which display and
//! keyboard commands follow from it, and drives the poll cycle one step at a
//! time. Everything here is plain computation: reading sensors, running
//! commands and sleeping are left to the caller, which reports each outcome
//! back as an event.

pub mod backend;
pub mod command;
pub mod config;
pub mod error;
pub mod input;
pub mod orientation;
pub mod poll;
pub mod sensor;

pub use backend::{detect_backend, process_found, Backend};
pub use command::{keyboard_command, listing_command, probe_command, update_keyboards, update_sway};
pub use config::Config;
pub use error::Error;
pub use input::{get_keyboards, keyboards_among, InputDevice};
pub use orientation::{Orientation, OrientationState};
pub use poll::{Action, Event, Session, Step};
pub use sensor::{is_white_space, parse_reading, Accelerometer};
