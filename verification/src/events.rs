//! The events the application sends to its interface.
use vstd::prelude::*;

verus! {

pub const RECORDING_STATE_CHANGED: &'static str = "recording-state-changed";
pub const AUDIO_LEVEL: &'static str = "audio-level";
pub const AUDIO_ACTIVITY: &'static str = "audio-activity";
pub const TRANSCRIPTION_COMPLETE: &'static str = "transcription-complete";
pub const TRANSCRIPTION_ERROR: &'static str = "transcription-error";
pub const TRANSCRIPTION_METRICS: &'static str = "transcription-metrics";
pub const MODEL_DOWNLOAD_PROGRESS: &'static str = "model-download-progress";
pub const MODEL_DOWNLOAD_COMPLETE: &'static str = "model-download-complete";
pub const MODEL_DOWNLOAD_CANCELLED: &'static str = "model-download-cancelled";
pub const MODEL_DELETED: &'static str = "model-deleted";
pub const POLISH_MODEL_DOWNLOAD_PROGRESS: &'static str = "polish-model-download-progress";
pub const POLISH_MODEL_DOWNLOAD_COMPLETE: &'static str = "polish-model-download-complete";
pub const POLISH_MODEL_DOWNLOAD_CANCELLED: &'static str = "polish-model-download-cancelled";
pub const POLISH_MODEL_DELETED: &'static str = "polish-model-deleted";
pub const MODEL_LOADED: &'static str = "model-loaded";
pub const MODEL_UNLOADED: &'static str = "model-unloaded";
pub const SETTINGS_CHANGED: &'static str = "settings-changed";
pub const TOAST_MESSAGE: &'static str = "toast-message";
pub const SHORTCUT_REGISTRATION_FAILED: &'static str = "shortcut-registration-failed";

/// The recorder's status changed for a task.
#[derive(Debug)]
pub struct RecordingStateEvent {
    pub status: String,
    pub task_id: u64,
}

/// A task's text was delivered.
#[derive(Debug)]
pub struct TranscriptionCompleteEvent {
    pub text: String,
    pub task_id: u64,
}

/// Timings of a transcription, in milliseconds.
#[derive(Debug)]
pub struct TranscriptionMetrics {
    pub load_time_ms: u64,
    pub preprocess_time_ms: u64,
    pub inference_time_ms: u64,
    pub polish_time_ms: u64,
    pub total_time_ms: u64,
}

/// Progress of a speech model download.
#[derive(Debug)]
pub struct ModelDownloadProgressEvent {
    pub model: String,
    pub downloaded: u64,
    pub total: u64,
    pub progress: u64,
}

/// A speech model download finished.
#[derive(Debug)]
pub struct ModelDownloadCompleteEvent {
    pub model: String,
}

/// A speech model download was cancelled.
#[derive(Debug)]
pub struct ModelDownloadCancelledEvent {
    pub model: String,
}

/// Progress of a polish model download.
#[derive(Debug)]
pub struct PolishModelDownloadProgressEvent {
    pub model_id: String,
    pub downloaded: u64,
    pub total: u64,
    pub progress: u64,
}

/// A polish model download finished.
#[derive(Debug)]
pub struct PolishModelDownloadCompleteEvent {
    pub model_id: String,
}

/// A polish model download was cancelled.
#[derive(Debug)]
pub struct PolishModelDownloadCancelledEvent {
    pub model_id: String,
}

/// A speech model was loaded.
#[derive(Debug)]
pub struct ModelLoadedEvent {
    pub model: String,
}

/// The speech model was unloaded.
#[derive(Debug)]
pub struct ModelUnloadedEvent {}

/// The settings as the interface is told of a change.
#[derive(Debug)]
pub struct SettingsChangedEvent {
    pub hotkey: String,
    pub model: String,
    pub stt_engine: String,
    pub pill_position: String,
    pub pill_indicator_mode: String,
    pub auto_start: bool,
    pub gpu_acceleration: bool,
    pub language: String,
    pub stt_engine_language: String,
    pub beep_on_record: bool,
    pub audio_device: String,
    pub polish_enabled: bool,
    pub polish_system_prompt: String,
    pub polish_model: String,
    pub theme_mode: String,
    pub stt_engine_initial_prompt: String,
    pub model_resident: bool,
    pub idle_unload_minutes: u32,
    pub denoise_mode: String,
    pub stt_engine_work_domain: String,
    pub stt_engine_work_domain_prompt: String,
    pub stt_engine_user_glossary: String,
}

} // verus!
