//! Learning of word-level corrections from edits the user makes after delivery.
pub mod diff;
pub mod observer;
pub mod platform;
pub mod types;
