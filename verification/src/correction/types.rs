//! Records of learned corrections.
use vstd::prelude::*;

verus! {

/// Version number written into a correction learning file.
pub const CORRECTION_LEARNING_FILE_VERSION: u32 = 1;

/// A learned mapping from a misrecognised term to its correction.
#[derive(Debug)]
pub struct CorrectionMapping {
    pub wrong: String,
    pub corrected: String,
    pub frequency: u32,
    pub first_seen_at_ms: i64,
    pub last_seen_at_ms: i64,
    pub source: String,
}

/// The stored collection of learned corrections.
#[derive(Debug)]
pub struct CorrectionLearningFile {
    pub version: u32,
    pub updated_at_ms: i64,
    pub corrections: Vec<CorrectionMapping>,
}

impl CorrectionLearningFile {
    /// A file with no corrections, stamped with `now_ms`.
    pub fn empty(now_ms: i64) -> (f: Self)
        ensures
            f.version == CORRECTION_LEARNING_FILE_VERSION,
            f.updated_at_ms == now_ms,
            f.corrections@.len() == 0,
    {
        CorrectionLearningFile {
            version: CORRECTION_LEARNING_FILE_VERSION,
            updated_at_ms: now_ms,
            corrections: Vec::new(),
        }
    }
}

/// Event announcing that a correction was learned.
#[derive(Debug)]
pub struct CorrectionLearnedEvent {
    pub wrong: String,
    pub corrected: String,
    pub frequency: u32,
}

impl CorrectionLearnedEvent {
    /// The event that announces `mapping`.
    pub fn from_mapping(mapping: &CorrectionMapping) -> (e: Self)
        ensures
            e.wrong@ == mapping.wrong@,
            e.corrected@ == mapping.corrected@,
            e.frequency == mapping.frequency,
    {
        CorrectionLearnedEvent {
            wrong: mapping.wrong.clone(),
            corrected: mapping.corrected.clone(),
            frequency: mapping.frequency,
        }
    }
}

/// A pair of terms: what was delivered and what the user changed it to.
#[derive(Debug)]
pub struct CorrectionPair {
    pub wrong: String,
    pub corrected: String,
}

impl CorrectionPair {
    /// Builds a pair from its two terms.
    pub fn new(wrong: String, corrected: String) -> (p: Self)
        ensures
            p.wrong@ == wrong@,
            p.corrected@ == corrected@,
    {
        CorrectionPair { wrong, corrected }
    }
}

/// Text after corrections were applied, and the corrections used.
#[derive(Debug)]
pub struct CorrectionApplyResult {
    pub text: String,
    pub applied: Vec<CorrectionPair>,
}

} // verus!
