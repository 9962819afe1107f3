//! Click-automation engine.
//!
//! The engine converts between four interchangeable rate units and keeps a
//! single canonical `(cps, wait_ns)` pair, decides from a snapshot of pressed
//! keys whether a click should fire, and enforces the start/stop handshake
//! between an interactive front end and a single background emission loop.
//! The front end, the key-state poller and the click injector live outside
//! this crate and hand the engine plain values.

pub mod controller;
pub mod digits;
pub mod engine;
pub mod rate;
pub mod scheduler;
pub mod trigger;
