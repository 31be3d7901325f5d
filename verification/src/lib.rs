//! A fixed-rate client loop: frame pacing, deadline-bound rendering and
//! reconciliation of local state with a remote authority.
pub mod error;
pub mod event;
pub mod engine;
pub mod render;
pub mod sync;
pub mod trace;
