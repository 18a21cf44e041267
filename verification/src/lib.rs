//! Power model of a small spacecraft's electrical bus.
//!
//! Every quantity is a fixed-point integer: power in microwatts, voltage in
//! millivolts, current in microamperes, time in microseconds.

pub mod camera;
pub mod clock;
pub mod communication;
pub mod component;
pub mod computer;
pub mod cosine;
pub mod heaters;
pub mod jitter;
pub mod navigation;
pub mod supply;
pub mod units;
