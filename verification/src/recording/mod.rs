//! The recorder: its state, starting, stopping and cancelling recordings.
pub mod state;
pub mod lifecycle;
pub mod pipeline;
