//! Input devices.

pub mod util;
