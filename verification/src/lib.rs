//! Elapsed and remaining time between two instants, counted in ticks of a
//! chosen unit or rendered as an approximate calendar breakdown.

pub mod breakdown;
mod calendar;
pub mod delta;
pub mod instant;
pub mod laws;
pub mod units;

pub use breakdown::Breakdown;
pub use delta::{TimeDelta, UnsupportedUnit};
pub use instant::Instant;
