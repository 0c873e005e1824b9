//! Startup logic of a small desktop widget: a single always-on-top window
//! that is anchored to the bottom-right corner of its monitor.
//!
//! The crate holds no windowing code. It computes where the window goes
//! ([`placement`]) and decides, one step at a time, what the host asks of the
//! display next ([`lifecycle`]). The host performs each request and reports
//! what came of it.

pub mod geometry;
pub mod lifecycle;
pub mod placement;
