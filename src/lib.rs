//! Cycle-count measurement for a benchmarking harness: the arithmetic on
//! counter readings, and the units in which accumulated cycle counts are shown.
pub mod decimal;
pub mod formatter;
pub mod measurement;

pub use formatter::{CyclesPerByteFormatter, ThroughputHint};
pub use measurement::CyclesPerByte;
