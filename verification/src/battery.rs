//! The battery block: cells are read, validated and combined into one
//! logical power source, which is then rendered for the status bar.

pub mod cell;
pub mod config;
pub mod fleet;
pub mod percent;
pub mod render;
pub mod status;

pub use crate::battery::cell::{Battery, RawCellReading};
pub use crate::battery::config::{Config, ConfigError};
pub use crate::battery::fleet::{Batteries, DeviceReading};
pub use crate::battery::status::ChargeStatus;
pub use crate::block::I3Block;
