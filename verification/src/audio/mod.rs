//! Audio around the recording: beeps, the level meter, processed chunks.
pub mod beep;
pub mod meter;
