//! The end of a transcription: what the interface is told and what the
//! history records.
use vstd::prelude::*;

use crate::history::{
    opt_chars, opt_str_chars, recording_duration_spec, save_failed_history, save_to_history, source_spec,
    NewTranscriptionEntry,
};
use crate::recording::state::AppState;
use crate::text::owned;

verus! {

/// How a finished transcription ends for the interface.
#[derive(Debug, PartialEq, Eq)]
pub enum FinalizeResult {
    /// Deliver this text to the focused application.
    DeliverText(String),
    /// Go back to idle.
    TransitionToIdle,
    /// Show an error, then go idle.
    TransitionToError,
}

/// A transcription with text: the text is delivered, and the record holds
/// both texts and the polish time when there was one.  The audio file, if
/// any, is the caller's to delete.
pub fn finalize_successful_transcription(
    state: &AppState,
    raw_text: &str,
    final_text: &str,
    polish_time_ms: u64,
    audio_path: Option<String>,
    local_engine: Option<&str>,
) -> (r: (FinalizeResult, NewTranscriptionEntry))
    ensures
        r.0 matches FinalizeResult::DeliverText(t) && t@ == final_text@,
        source_spec(state.settings, opt_str_chars(local_engine), r.1.stt_engine, r.1.stt_model, r.1.language, r.1.is_cloud),
        r.1.raw_text@ == raw_text@,
        r.1.final_text@ == final_text@,
        exists|now_ms: u64| r.1.audio_duration_ms == recording_duration_spec(state.recording_start_time, now_ms),
        r.1.stt_duration_ms is None,
        r.1.polish_duration_ms == (if polish_time_ms > 0 {
            Some(polish_time_ms as i64)
        } else {
            None
        }),
        r.1.total_duration_ms is None,
        r.1.polish_applied == (polish_time_ms > 0),
        r.1.polish_engine is None,
        r.1.audio_path == audio_path,
        r.1.status@ == "success"@,
        r.1.error is None,
{
    let polish = if polish_time_ms > 0 {
        Some(polish_time_ms as i64)
    } else {
        None
    };
    let entry = save_to_history(
        state,
        raw_text,
        final_text,
        None,
        polish,
        polish_time_ms > 0,
        audio_path,
        local_engine,
    );
    (FinalizeResult::DeliverText(owned(final_text)), entry)
}

/// A transcription that came back empty: recorded as failed, then idle.
pub fn finalize_empty_transcription(state: &AppState, audio_path: Option<String>, local_engine: Option<&str>) -> (r: (
    FinalizeResult,
    NewTranscriptionEntry,
))
    ensures
        r.0 == FinalizeResult::TransitionToIdle,
        source_spec(state.settings, opt_str_chars(local_engine), r.1.stt_engine, r.1.stt_model, r.1.language, r.1.is_cloud),
        r.1.raw_text@.len() == 0,
        r.1.final_text@.len() == 0,
        r.1.audio_path == audio_path,
        exists|now_ms: u64| r.1.audio_duration_ms == recording_duration_spec(state.recording_start_time, now_ms),
        r.1.status@ == "error"@,
        opt_chars(r.1.error) == Some("Empty transcription result"@),
        r.1.stt_duration_ms is None,
        r.1.polish_duration_ms is None,
        r.1.total_duration_ms is None,
        !r.1.polish_applied,
        r.1.polish_engine is None,
{
    let entry = save_failed_history(state, audio_path, "Empty transcription result", local_engine);
    (FinalizeResult::TransitionToIdle, entry)
}

/// A transcription that failed: recorded with its error, then the error is
/// shown.
pub fn finalize_failed_transcription(
    state: &AppState,
    audio_path: Option<String>,
    error: &str,
    local_engine: Option<&str>,
) -> (r: (FinalizeResult, NewTranscriptionEntry))
    ensures
        r.0 == FinalizeResult::TransitionToError,
        source_spec(state.settings, opt_str_chars(local_engine), r.1.stt_engine, r.1.stt_model, r.1.language, r.1.is_cloud),
        r.1.raw_text@.len() == 0,
        r.1.final_text@.len() == 0,
        r.1.audio_path == audio_path,
        exists|now_ms: u64| r.1.audio_duration_ms == recording_duration_spec(state.recording_start_time, now_ms),
        r.1.status@ == "error"@,
        opt_chars(r.1.error) == Some(error@),
        r.1.stt_duration_ms is None,
        r.1.polish_duration_ms is None,
        r.1.total_duration_ms is None,
        !r.1.polish_applied,
        r.1.polish_engine is None,
{
    let entry = save_failed_history(state, audio_path, error, local_engine);
    (FinalizeResult::TransitionToError, entry)
}

} // verus!
