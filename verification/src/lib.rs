//! A load-generation core: the closed-loop control logic that drives a
//! scenario's transaction rate toward an operator-chosen goal by jointly
//! adjusting a token-bucket rate limit and a worker-pool size.
//!
//! Rates are carried as integers in milli-TPS (thousandths of a transaction
//! per second), so every decision rule is exact and fully specified. The
//! asynchronous edge -- timers, the shared rate limiter, worker tasks and
//! metric emission -- lives outside this crate and feeds plain values in.

pub mod controller;
pub mod data;
pub mod runner;
pub mod sampler;
pub mod scenario;
pub mod window;
