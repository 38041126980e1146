//! Index allocation.

pub mod pool;
