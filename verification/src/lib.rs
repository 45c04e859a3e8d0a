//! A monotonic time source read from the processor's cycle counter.
//!
//! The library has two halves. Frequency discovery asks the processor, through
//! CPUID, whether it has a cycle counter that ticks at a fixed rate and how fast
//! that counter runs. Conversion turns a counter reading into nanoseconds with
//! integer arithmetic that neither overflows early nor loses precision.
//!
//! Everything that decides or computes is verified. Reading the counter itself
//! needs an instruction that safe Rust cannot issue, so a reading is handed to
//! the library as a plain `u64`.

pub mod convert;
pub mod cpuid;
pub mod error;
pub mod tsc;

pub use crate::cpuid::CpuidLeaf;
pub use crate::error::Error;
pub use crate::tsc::TSC;
