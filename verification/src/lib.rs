//! The core of a host-based HTTP reverse proxy, with machine-checked
//! contracts.
//!
//! - [`route_table`]: which origin serves which virtual host.
//! - [`cache`]: response bodies kept until their time to live runs out.
//! - [`rate_limiter`]: a fixed window of admissions per client, and its sweep.
//! - [`pipeline`]: what happens to one request, tying the three together.
//! - [`exchange`]: the values that pass between the pipeline and its caller.
//! - [`logger`]: the record of one request.
//! - [`api`] and [`config`]: the administrative surface and the start-up
//!   settings.
//! - [`clock`], [`status`] and [`text`]: time, status codes and text helpers.
//!
//! Apart from reading the clock the library does no I/O. Its caller owns the
//! sockets, the store and the locks, hands in plain values and carries out
//! what the library decides.

pub mod api;
pub mod cache;
pub mod clock;
pub mod config;
pub mod exchange;
pub mod logger;
pub mod pipeline;
pub mod rate_limiter;
pub mod route_table;
pub mod status;
pub mod text;
