//! Display animation: a controller that toggles the active light on a
//! blink cadence and shifts it on button presses, behind an operator
//! abstraction over the actual light hardware.

pub mod controller;
pub mod matrix;
pub mod operator;
pub mod task;
pub mod types;
