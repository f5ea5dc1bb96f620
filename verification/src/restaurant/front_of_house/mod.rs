//! Where the guests are.

pub mod hosting;
