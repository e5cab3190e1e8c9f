//! Building blocks for a small Linux container runtime: a fixed-capacity
//! byte writer, the `uid_map` line format, and builders for the flags and
//! arguments of `clone3(2)`, `close_range(2)` and `mount(2)`.

pub mod clone3;
pub mod close_range;
pub mod container;
pub mod error;
pub mod fixed_buf_writer;
pub mod mount;
pub mod spawn;
pub mod sys;
pub mod uid_map;
