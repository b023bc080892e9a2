//! The decisions behind a Logitech HID++ host: how battery reports are decoded
//! and shown, which battery protocol a device is read through, how a device's
//! probe is memoized between enumeration ticks, which HID nodes are opened and
//! shared, and how an unreadable configuration file is recovered.
//!
//! Nothing in here performs I/O. Where a decision needs an answer from a device,
//! the operating system or the user, a small state machine says what to ask next
//! and takes the answer as a plain value.

pub mod config_recovery;
pub mod device;
pub mod feature;
pub mod inventory;
pub mod mappings;
pub mod route;
pub mod text;
pub mod transport;
