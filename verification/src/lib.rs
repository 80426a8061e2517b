//! A small timing helper: measure one run of an operation, take the fastest of
//! several runs, and estimate how many runs fit into a time budget.

pub mod clock;
pub mod estimate;
pub mod fastest;
pub mod measure;

pub use estimate::{calc_iterations, Iterations};
pub use measure::{bench_once, bench_times};
