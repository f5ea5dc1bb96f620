//! A tour of Rust in small, verified pieces.
//!
//! The centre piece is [`pool`]: a bounded worker pool, given as a state
//! machine with the laws that hold of it, and as an executable pool whose
//! every operation is proved to follow the state machine. Around it stand
//! the request logic of a small web server ([`http`]), a line search
//! ([`minigrep`]), a guessing game ([`guessing`]), a blog post's workflow
//! ([`blog`]), a quota tracker ([`quota`]) and a number of smaller
//! examples. [`text`] holds what the modules share about text, and the
//! string functions of the standard library that are trusted rather than
//! proved.
//!
//! Nothing in the library prints, reads or blocks: programs built on it do
//! that, and hand it plain values.

pub mod aggregator;
pub mod blog;
pub mod cacher;
pub mod coins;
pub mod control_flow;
pub mod generics;
pub mod guessing;
pub mod gui;
pub mod http;
pub mod lifetimes;
pub mod minigrep;
pub mod net;
pub mod operators;
pub mod ownership;
pub mod pool;
pub mod quota;
pub mod restaurant;
pub mod shapes;
pub mod smart;
pub mod text;
