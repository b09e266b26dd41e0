//! A verified copy engine: path resolution, source validation and fan-out
//! rules, a chunked streaming copy, and a progress-reporting protocol.
//!
//! The engine itself performs no I/O. A caller probes the filesystem, hands
//! the engine plain facts (paths, existence, kinds), executes the plan the
//! engine returns, and drives the copy loop and the progress state through
//! the verified functions here.

pub mod copier;
pub mod engine;
pub mod errors;
pub mod progress;
pub mod resolver;
