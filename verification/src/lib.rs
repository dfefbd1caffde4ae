//! Verified core logic of a local-first voice typing assistant.
pub mod text;
pub mod audio;
pub mod clock;
pub mod events;
pub mod correction;
pub mod maintenance;
pub mod permissions;
pub mod polish;
pub mod history;
pub mod recording;
pub mod settings;
pub mod shortcut;
pub mod transcription;
pub mod window;
pub mod window_context;
