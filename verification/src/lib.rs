//! Core logic of a small desktop telemetry dashboard: per-interval deltas
//! derived from cumulative network byte counters, and fixed-capacity rolling
//! histories of the sampled metrics, ready for oldest-first rendering.

pub mod history;
pub mod monitor;
