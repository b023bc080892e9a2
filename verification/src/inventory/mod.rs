//! What is connected, and in which state.

pub mod battery;
pub mod battery_events;
pub mod battery_run;
pub mod cache;
pub mod enumerator;
pub mod features;
pub mod features_run;
pub mod probe;
