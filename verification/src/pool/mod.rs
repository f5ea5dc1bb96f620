//! A bounded worker pool: a fixed set of workers that take jobs from one
//! first-in, first-out queue.

pub mod laws;
pub mod model;
pub mod worker_pool;
