//! Decisions of the transcription pipeline: polishing, finalisation, history.
pub mod polish_guard;
pub mod finalize;
pub mod polish_plan;
pub mod retry;
