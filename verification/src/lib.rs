//! Configuration loading and flag caching for a port-routing proxy.
//!
//! * [`config`] turns the decoded configuration document into two validated
//!   configuration objects, or into the first error.
//! * [`cache`] decides, step by step, what a flag operation asks of the
//!   connection pool and of the store, and what their answers mean.
//! * [`errors`] holds the error types of both.
//! * [`laws`] states and proves what holds of them for every input.
//!
//! The library performs no I/O: files, sockets and the pool stay with the
//! caller.

pub mod cache;
pub mod config;
pub mod errors;
pub mod laws;
