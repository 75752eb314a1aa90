//! A verified model of a fixed-interval output-line blinker: the clock, pin
//! and timer configuration values built once at power-on, and the control
//! loop that alternates the line between high and low every half second.

pub mod config;
pub mod blink;
