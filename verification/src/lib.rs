//! A greeting formatter and the planning half of a stock candlestick chart.
//!
//! The crate computes; it does no input or output. Calendar dates are read
//! with `chrono`, everything after that is proved.

pub mod bars;
pub mod calendar;
pub mod chart;
pub mod greeter;
pub mod render;
