//! A verified core for a desktop auto-clicker: a toggle/rate state machine
//! with a derived status line, the click-pacing computation, and icon
//! decoding. The windowing shell drives these through plain values.

pub mod format;
pub mod state;
pub mod driver;
pub mod icon;
