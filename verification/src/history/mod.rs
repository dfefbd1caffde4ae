//! Transcription history: the records kept of each recording, and how a
//! record is made from the settings and timings of a task.  Storing and
//! querying records is done by the caller's store.
pub mod dashboard;
pub mod engines;
pub mod query;
pub mod stats;

use vstd::prelude::*;

use crate::clock::unix_time_ms;
use crate::recording::state::AppState;
use crate::settings::app_settings::{active_stt_config_spec, AppSettings};
use crate::text::{append_str, owned};

verus! {

/// A stored history record.
#[derive(Debug)]
pub struct TranscriptionEntry {
    pub id: String,
    pub created_at: i64,
    pub raw_text: String,
    pub final_text: String,
    pub stt_engine: String,
    pub stt_model: Option<String>,
    pub language: Option<String>,
    pub audio_duration_ms: Option<i64>,
    pub stt_duration_ms: Option<i64>,
    pub polish_duration_ms: Option<i64>,
    pub total_duration_ms: Option<i64>,
    pub polish_applied: bool,
    pub polish_engine: Option<String>,
    pub is_cloud: bool,
    pub audio_path: Option<String>,
    pub status: String,
    pub error: Option<String>,
}

/// A history record to be stored.
#[derive(Debug)]
pub struct NewTranscriptionEntry {
    pub raw_text: String,
    pub final_text: String,
    pub stt_engine: String,
    pub stt_model: Option<String>,
    pub language: Option<String>,
    pub audio_duration_ms: Option<i64>,
    pub stt_duration_ms: Option<i64>,
    pub polish_duration_ms: Option<i64>,
    pub total_duration_ms: Option<i64>,
    pub polish_applied: bool,
    pub polish_engine: Option<String>,
    pub is_cloud: bool,
    pub audio_path: Option<String>,
    pub status: String,
    pub error: Option<String>,
}

/// Usage on one day, for charting.
#[derive(Debug)]
pub struct DailyUsage {
    pub date: String,
    pub count: i64,
    pub audio_ms: i64,
    pub output_units: i64,
}

/// Usage of one engine, for charting.
#[derive(Debug)]
pub struct EngineUsage {
    pub engine: String,
    pub count: i64,
    pub avg_stt_ms: Option<i64>,
}

/// What a history query asks for.
#[derive(Debug)]
pub struct HistoryFilter {
    pub search: Option<String>,
    pub engine: Option<String>,
    pub date_from: Option<i64>,
    pub date_to: Option<i64>,
    pub limit: Option<i64>,
    pub offset: Option<i64>,
}

/// The view of an optional string.
pub open spec fn opt_chars(o: Option<String>) -> Option<Seq<char>> {
    match o {
        Some(s) => Some(s@),
        None => None,
    }
}

/// The view of an optional string slice.
pub open spec fn opt_str_chars(o: Option<&str>) -> Option<Seq<char>> {
    match o {
        Some(s) => Some(s@),
        None => None,
    }
}

/// The difference of two integers when it fits an `i64`.
pub open spec fn checked_i64(d: int) -> Option<i64> {
    if i64::MIN <= d <= i64::MAX {
        Some(d as i64)
    } else {
        None
    }
}

/// How long the recording has run at `now_ms`: nothing when no start time is
/// recorded.  Both times are read as signed milliseconds.
pub open spec fn recording_duration_spec(start_ms: u64, now_ms: u64) -> Option<i64> {
    if start_ms > 0 {
        checked_i64((now_ms as i64) as int - (start_ms as i64) as int)
    } else {
        None
    }
}

/// The engine, model, language and cloud flag a record names.  A cloud
/// record names `cloud-` and the provider, and the provider's model; a local
/// record names the engine that serves the settings' model (`unknown` when
/// none does) and that model.
pub open spec fn source_spec(
    settings: AppSettings,
    local_engine: Option<Seq<char>>,
    stt_engine: String,
    stt_model: Option<String>,
    language: Option<String>,
    is_cloud: bool,
) -> bool {
    &&& is_cloud == settings.cloud_stt_enabled
    &&& if settings.cloud_stt_enabled {
        &&& stt_engine@ == "cloud-"@ + settings.active_cloud_stt_provider@
        &&& exists|c: crate::settings::configs::CloudSttConfig|
            active_stt_config_spec(settings, c) && opt_chars(stt_model) == Some(#[trigger] c.model@)
    } else {
        &&& stt_engine@ == (match local_engine {
            Some(n) => n,
            None => "unknown"@,
        })
        &&& opt_chars(stt_model) == Some(settings.model@)
    }
    &&& opt_chars(language) == (if settings.stt_engine_language@.len() == 0 {
        None::<Seq<char>>
    } else {
        Some(settings.stt_engine_language@)
    })
}

/// The source a record names, as [`source_spec`] says.
pub open spec fn entry_source_spec(
    settings: AppSettings,
    local_engine: Option<Seq<char>>,
    e: NewTranscriptionEntry,
) -> bool {
    source_spec(settings, local_engine, e.stt_engine, e.stt_model, e.language, e.is_cloud)
}

/// The total processing time: the sum of transcription and polish when both
/// are known, the transcription time alone when polish is unknown.
pub open spec fn total_duration_spec(stt: Option<i64>, polish: Option<i64>) -> Option<i64> {
    match (stt, polish) {
        (Some(s), Some(p)) => checked_i64(s + p),
        (Some(s), None) => Some(s),
        _ => None,
    }
}

/// Fills in the engine, model, language and cloud flag of a record.
fn entry_source(settings: &AppSettings, local_engine: Option<&str>) -> (r: (String, Option<String>, Option<String>, bool))
    ensures
        source_spec(*settings, opt_str_chars(local_engine), r.0, r.1, r.2, r.3),
{
    let cloud_config = settings.get_active_cloud_stt_config();
    let is_cloud = cloud_config.enabled;
    let engine = if is_cloud {
        let mut e = owned("cloud-");
        append_str(&mut e, cloud_config.provider_type.as_str());
        e
    } else {
        match local_engine {
            Some(n) => owned(n),
            None => owned("unknown"),
        }
    };
    let model = if is_cloud {
        Some(cloud_config.model.clone())
    } else {
        Some(settings.model.clone())
    };
    let language = if settings.stt_engine_language.unicode_len() == 0 {
        None
    } else {
        Some(settings.stt_engine_language.clone())
    };
    (engine, model, language, is_cloud)
}

/// How long the recording has run at `now_ms`.
fn recording_duration(start_ms: u64, now_ms: u64) -> (d: Option<i64>)
    ensures
        d == recording_duration_spec(start_ms, now_ms),
{
    if start_ms > 0 {
        (now_ms as i64).checked_sub(start_ms as i64)
    } else {
        None
    }
}

/// The record of a successful recording, made at `now_ms`.
pub fn success_history_entry(
    settings: &AppSettings,
    recording_start_time: u64,
    now_ms: u64,
    local_engine: Option<&str>,
    raw_text: &str,
    final_text: &str,
    stt_duration_ms: Option<i64>,
    polish_duration_ms: Option<i64>,
    polish_applied: bool,
    audio_path: Option<String>,
) -> (e: NewTranscriptionEntry)
    ensures
        entry_source_spec(*settings, opt_str_chars(local_engine), e),
        e.raw_text@ == raw_text@,
        e.final_text@ == final_text@,
        e.audio_duration_ms == recording_duration_spec(recording_start_time, now_ms),
        e.stt_duration_ms == stt_duration_ms,
        e.polish_duration_ms == polish_duration_ms,
        e.total_duration_ms == total_duration_spec(stt_duration_ms, polish_duration_ms),
        e.polish_applied == polish_applied,
        e.polish_engine is None,
        e.audio_path == audio_path,
        e.status@ == "success"@,
        e.error is None,
{
    let (stt_engine, stt_model, language, is_cloud) = entry_source(settings, local_engine);
    let total_duration_ms = match (stt_duration_ms, polish_duration_ms) {
        (Some(stt), Some(pol)) => stt.checked_add(pol),
        (Some(stt), None) => Some(stt),
        _ => None,
    };
    NewTranscriptionEntry {
        raw_text: owned(raw_text),
        final_text: owned(final_text),
        stt_engine,
        stt_model,
        language,
        audio_duration_ms: recording_duration(recording_start_time, now_ms),
        stt_duration_ms,
        polish_duration_ms,
        total_duration_ms,
        polish_applied,
        polish_engine: None,
        is_cloud,
        audio_path,
        status: owned("success"),
        error: None,
    }
}

/// The record of a failed recording, made at `now_ms`.
pub fn failed_history_entry(
    settings: &AppSettings,
    recording_start_time: u64,
    now_ms: u64,
    local_engine: Option<&str>,
    audio_path: Option<String>,
    error: &str,
) -> (e: NewTranscriptionEntry)
    ensures
        entry_source_spec(*settings, opt_str_chars(local_engine), e),
        e.raw_text@.len() == 0,
        e.final_text@.len() == 0,
        e.audio_duration_ms == recording_duration_spec(recording_start_time, now_ms),
        e.stt_duration_ms is None,
        e.polish_duration_ms is None,
        e.total_duration_ms is None,
        !e.polish_applied,
        e.polish_engine is None,
        e.audio_path == audio_path,
        e.status@ == "error"@,
        opt_chars(e.error) == Some(error@),
{
    let (stt_engine, stt_model, language, is_cloud) = entry_source(settings, local_engine);
    NewTranscriptionEntry {
        raw_text: String::new(),
        final_text: String::new(),
        stt_engine,
        stt_model,
        language,
        audio_duration_ms: recording_duration(recording_start_time, now_ms),
        stt_duration_ms: None,
        polish_duration_ms: None,
        total_duration_ms: None,
        polish_applied: false,
        polish_engine: None,
        is_cloud,
        audio_path,
        status: owned("error"),
        error: Some(owned(error)),
    }
}

/// The record of a successful recording of the current task, timed by the
/// system clock; the caller stores it.  `local_engine` is the engine that
/// serves the settings' model, if known.
pub fn save_to_history(
    state: &AppState,
    raw_text: &str,
    final_text: &str,
    stt_duration_ms: Option<i64>,
    polish_duration_ms: Option<i64>,
    polish_applied: bool,
    audio_path: Option<String>,
    local_engine: Option<&str>,
) -> (e: NewTranscriptionEntry)
    ensures
        entry_source_spec(state.settings, opt_str_chars(local_engine), e),
        e.raw_text@ == raw_text@,
        e.final_text@ == final_text@,
        exists|now_ms: u64| e.audio_duration_ms == recording_duration_spec(state.recording_start_time, now_ms),
        e.stt_duration_ms == stt_duration_ms,
        e.polish_duration_ms == polish_duration_ms,
        e.total_duration_ms == total_duration_spec(stt_duration_ms, polish_duration_ms),
        e.polish_applied == polish_applied,
        e.polish_engine is None,
        e.audio_path == audio_path,
        e.status@ == "success"@,
        e.error is None,
{
    let now_ms = unix_time_ms();
    success_history_entry(
        &state.settings,
        state.recording_start_time,
        now_ms,
        local_engine,
        raw_text,
        final_text,
        stt_duration_ms,
        polish_duration_ms,
        polish_applied,
        audio_path,
    )
}

/// The record of a failed recording of the current task, timed by the
/// system clock; the caller stores it.
pub fn save_failed_history(state: &AppState, audio_path: Option<String>, error: &str, local_engine: Option<&str>) -> (e:
    NewTranscriptionEntry)
    ensures
        entry_source_spec(state.settings, opt_str_chars(local_engine), e),
        e.raw_text@.len() == 0,
        e.final_text@.len() == 0,
        exists|now_ms: u64| e.audio_duration_ms == recording_duration_spec(state.recording_start_time, now_ms),
        e.stt_duration_ms is None,
        e.polish_duration_ms is None,
        e.total_duration_ms is None,
        !e.polish_applied,
        e.polish_engine is None,
        e.audio_path == audio_path,
        e.status@ == "error"@,
        opt_chars(e.error) == Some(error@),
{
    let now_ms = unix_time_ms();
    failed_history_entry(&state.settings, state.recording_start_time, now_ms, local_engine, audio_path, error)
}

} // verus!
