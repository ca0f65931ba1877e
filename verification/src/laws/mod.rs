//! What holds of the library as a whole.

pub mod counters;
pub mod guards;
pub mod instruments;
pub mod memory;
pub mod metal;
pub mod operations;
pub mod queries;
pub mod recording;
pub mod runs;
pub mod text;
pub mod vectors;
