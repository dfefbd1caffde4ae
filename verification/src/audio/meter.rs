//! The input level shown while recording, and the chunks the stream
//! processor hands on.
use vstd::prelude::*;

verus! {

/// The current input level, from 0 to 100.
#[derive(Debug)]
pub struct LevelMeter {
    pub level: u32,
}

impl LevelMeter {
    /// A meter at level 0.
    pub fn new() -> (m: Self)
        ensures
            m.level == 0,
    {
        LevelMeter { level: 0 }
    }

    /// Sets the level.
    pub fn set_level(&mut self, level: u32)
        ensures
            final(self).level == level,
    {
        self.level = level;
    }

    /// The level last set.
    pub fn get_level(&self) -> (l: u32)
        ensures
            l == self.level,
    {
        self.level
    }
}

impl Default for LevelMeter {
    fn default() -> (m: Self)
        ensures
            m.level == 0,
    {
        LevelMeter::new()
    }
}

/// A processed chunk of audio with the speech detection result.
#[derive(Debug)]
pub struct ProcessedChunk {
    /// 16-bit PCM at 16 kHz, mono, ready for speech to text.
    pub pcm_16khz_mono: Vec<i16>,
    /// Whether speech was detected; a silent chunk need not be sent to a
    /// cloud service.
    pub has_speech: bool,
}

/// Counts kept by the stream processor over a session.
#[derive(Debug)]
pub struct StreamProcessorStats {
    pub total_chunks: u32,
    pub speech_chunks: u32,
    pub silent_chunks_skipped: u32,
}

impl Default for StreamProcessorStats {
    fn default() -> (s: Self)
        ensures
            s.total_chunks == 0,
            s.speech_chunks == 0,
            s.silent_chunks_skipped == 0,
    {
        StreamProcessorStats { total_chunks: 0, speech_chunks: 0, silent_chunks_skipped: 0 }
    }
}

} // verus!
