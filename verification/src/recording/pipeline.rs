//! What happens to a recording task once its audio is in: the decisions
//! between the asynchronous steps (streaming audio, waiting for the
//! transcript, polishing it), and the bookkeeping shared by them.
use vstd::prelude::*;

use crate::recording::state::AppState;
use crate::settings::app_settings::AppSettings;
use crate::text::{chars_of, str_eq, string_from_chars, trim_vec, trim_ws, CharClass};

verus! {

/// Audio level at which the pill shows activity.
pub const AUDIO_ACTIVITY_ON_THRESHOLD: u32 = 40;
/// Audio level below which the pill stops showing activity.
pub const AUDIO_ACTIVITY_OFF_THRESHOLD: u32 = 25;
/// Length of one chunk of recorded audio, in milliseconds.
pub const RECORDING_CHUNK_DURATION_MS: usize = 200;
/// How long the error state is shown before the pill goes idle, in milliseconds.
pub const ERROR_STATE_SETTLE_MS: u64 = 2000;

/// The recorder's state as the interface sees it.
#[derive(Debug)]
pub struct RecordingState {
    pub is_recording: bool,
    pub is_transcribing: bool,
    pub audio_level: u32,
    pub output_path: Option<String>,
}

/// After showing an error for a task, go idle only if that task is still the
/// current one and nothing runs.
pub fn should_emit_error_recovery_idle(
    current_task_id: u64,
    error_task_id: u64,
    is_recording: bool,
    is_transcribing: bool,
) -> (b: bool)
    ensures
        b == (current_task_id == error_task_id && !is_recording && !is_transcribing),
{
    current_task_id == error_task_id && !is_recording && !is_transcribing
}

/// After a task's asynchronous work ends, its cancel hotkey is released only
/// if it is still the current task and was not cancelled.
pub fn should_unregister_cancel_hotkey_after_async_cleanup(
    active_task_id: u64,
    cleanup_task_id: u64,
    cancellation_requested: bool,
) -> (b: bool)
    ensures
        b == (active_task_id == cleanup_task_id && !cancellation_requested),
{
    active_task_id == cleanup_task_id && !cancellation_requested
}

/// The number of interleaved samples in one chunk of device audio.
pub open spec fn chunk_size_spec(sample_rate: u32, channels: u16) -> int {
    (sample_rate * channels * RECORDING_CHUNK_DURATION_MS) / 1000
}

/// The number of samples in 200 ms of audio at the device's rate and
/// channel count.
pub fn recording_chunk_size_samples(sample_rate: u32, channels: u16) -> (n: usize)
    requires
        sample_rate * channels * RECORDING_CHUNK_DURATION_MS <= usize::MAX,
    ensures
        n == chunk_size_spec(sample_rate, channels),
{
    let sr = sample_rate as usize;
    let ch = channels as usize;
    assert(sr * ch <= sr * ch * 200) by (nonlinear_arith);
    (sr * ch * RECORDING_CHUNK_DURATION_MS) / 1000
}

/// Drops what is left of a cancelled task: the transcribing flag, the
/// task's session and the task's cancellation request.  The task's audio
/// file, if any, is the caller's to delete.
pub fn discard_canceled_result(state: &mut AppState, task_id: u64)
    ensures
        !final(state).is_transcribing,
        final(state).session == (if crate::recording::state::session_task(old(state).session) == Some(task_id) {
            None
        } else {
            old(state).session
        }),
        !final(state).canceled(task_id),
        forall|t: u64| t != task_id ==> (final(state).canceled(t) <==> old(state).canceled(t)),
        *final(state) == (AppState {
            is_transcribing: false,
            session: final(state).session,
            canceled_tasks: final(state).canceled_tasks,
            ..*old(state)
        }),
{
    state.is_transcribing = false;
    let _ = state.finish_session(task_id);
    state.clear_cancellation(task_id);
}

// ---------------------------------------------------------------------------
// Gathering device audio into chunks
// ---------------------------------------------------------------------------

/// Device samples waiting to fill a chunk.
#[derive(Debug)]
pub struct ChunkBuffer {
    pub samples: Vec<i16>,
}

impl ChunkBuffer {
    /// An empty buffer.
    pub fn new() -> (b: Self)
        ensures
            b.samples@.len() == 0,
    {
        ChunkBuffer { samples: Vec::new() }
    }

    /// Adds device samples; once the buffer holds a whole chunk, all of it is
    /// handed out and the buffer starts over.
    pub fn push(&mut self, pcm: &[i16], chunk_size: usize) -> (r: Option<Vec<i16>>)
        ensures
            old(self).samples@ + pcm@ == (match r {
                Some(c) => c@,
                None => final(self).samples@,
            }),
            r is Some <==> old(self).samples@.len() + pcm@.len() >= chunk_size,
            r is Some ==> final(self).samples@.len() == 0,
    {
        let mut i: usize = 0;
        let ghost start = self.samples@;
        while i < pcm.len()
            invariant
                i <= pcm@.len(),
                self.samples@ == start + pcm@.subrange(0, i as int),
            decreases pcm.len() - i,
        {
            self.samples.push(pcm[i]);
            proof {
                assert(pcm@.subrange(0, i + 1) == pcm@.subrange(0, i as int).push(pcm@[i as int]));
            }
            i = i + 1;
        }
        proof {
            assert(pcm@.subrange(0, pcm@.len() as int) == pcm@);
        }
        if self.samples.len() >= chunk_size {
            let mut out: Vec<i16> = Vec::new();
            std::mem::swap(&mut out, &mut self.samples);
            Some(out)
        } else {
            None
        }
    }

    /// Hands out whatever is buffered, when the recording stops: nothing when
    /// the buffer is empty or the device format is unknown.
    pub fn take_pending(&mut self, sample_rate: u32, channels: u16) -> (r: Option<Vec<i16>>)
        ensures
            (old(self).samples@.len() == 0 || sample_rate == 0 || channels == 0) ==> r is None
                && final(self).samples@ == old(self).samples@,
            !(old(self).samples@.len() == 0 || sample_rate == 0 || channels == 0) ==> (r matches Some(c)
                && c@ == old(self).samples@ && final(self).samples@.len() == 0),
    {
        if self.samples.len() == 0 || sample_rate == 0 || channels == 0 {
            return None;
        }
        let mut out: Vec<i16> = Vec::new();
        std::mem::swap(&mut out, &mut self.samples);
        Some(out)
    }
}

// ---------------------------------------------------------------------------
// The recording options read from the settings
// ---------------------------------------------------------------------------

/// What a recording is made with.
#[derive(Debug)]
pub struct RecordingOptions {
    /// The input device, or the system default.
    pub device_name: Option<String>,
    pub denoise_mode: String,
    pub vad_enabled: bool,
    pub domain: Option<String>,
    pub subdomain: Option<String>,
    pub glossary: Option<String>,
    pub window_context_enabled: bool,
}

/// A setting trimmed of whitespace, or nothing when that leaves it empty.
pub open spec fn trimmed_option(s: Seq<char>) -> Option<Seq<char>> {
    if trim_ws(s).len() == 0 {
        None
    } else {
        Some(trim_ws(s))
    }
}

/// The view of an optional string.
pub open spec fn opt_view(o: Option<String>) -> Option<Seq<char>> {
    match o {
        Some(s) => Some(s@),
        None => None,
    }
}

/// A setting trimmed of whitespace, or nothing when that leaves it empty.
fn trimmed_setting(s: &String) -> (r: Option<String>)
    ensures
        opt_view(r) == trimmed_option(s@),
{
    let t = trim_vec(&chars_of(s.as_str()), CharClass::Whitespace);
    if t.len() == 0 {
        None
    } else {
        Some(string_from_chars(&t))
    }
}

/// The options of a recording: the named input device unless it is
/// `"default"`, and the domain, subdomain and glossary trimmed, each left out
/// when empty.
pub fn recording_options(settings: &AppSettings) -> (o: RecordingOptions)
    ensures
        opt_view(o.device_name) == (if settings.audio_device@ == "default"@ {
            None
        } else {
            Some(settings.audio_device@)
        }),
        o.denoise_mode@ == settings.denoise_mode@,
        o.vad_enabled == settings.vad_enabled,
        opt_view(o.domain) == trimmed_option(settings.stt_engine_work_domain@),
        opt_view(o.subdomain) == trimmed_option(settings.stt_engine_work_subdomain@),
        opt_view(o.glossary) == trimmed_option(settings.stt_engine_user_glossary@),
        o.window_context_enabled == settings.window_context_enabled,
{
    let device_name = if str_eq(settings.audio_device.as_str(), "default") {
        None
    } else {
        Some(settings.audio_device.clone())
    };
    RecordingOptions {
        device_name,
        denoise_mode: settings.denoise_mode.clone(),
        vad_enabled: settings.vad_enabled,
        domain: trimmed_setting(&settings.stt_engine_work_domain),
        subdomain: trimmed_setting(&settings.stt_engine_work_subdomain),
        glossary: trimmed_setting(&settings.stt_engine_user_glossary),
        window_context_enabled: settings.window_context_enabled,
    }
}

/// The voice-activity model is used only when detection is on and the model
/// is present.
pub fn use_vad_model(vad_enabled: bool, vad_model_exists: bool) -> (b: bool)
    ensures
        b == (vad_enabled && vad_model_exists),
{
    vad_enabled && vad_model_exists
}

// ---------------------------------------------------------------------------
// From the end of the audio to the delivered text
// ---------------------------------------------------------------------------

/// What the task does next.
#[derive(Debug)]
pub enum PipelineAction {
    /// The task was cancelled: drop its result.
    Discard,
    /// No audio reached the transcriber: finish without text.
    FinishSilent,
    /// Wait for the transcript.
    Transcribe,
    /// Polish this transcript.
    Polish(String),
    /// Deliver the text and record it.
    FinishWithText { raw_text: String, final_text: String, polish_time_ms: u64 },
    /// The transcript came back empty.
    FinishEmpty,
    /// Transcription failed with this error.
    FinishFailed(String),
}

/// What has just happened to the task.
#[derive(Debug)]
pub enum PipelineEvent {
    /// All audio chunks were handed to the transcriber.
    AudioDrained { chunks_sent: u64 },
    /// The transcriber answered.
    Transcribed(Result<String, String>),
    /// Polishing ended.
    Polished { raw_text: String, final_text: String, polish_time_ms: u64 },
}

/// The next step: a cancelled task is always discarded; silence finishes at
/// once; a transcript is polished unless it is empty; a failure is reported;
/// polished text is delivered unless it came out empty.
pub open spec fn next_action_spec(cancellation_requested: bool, event: PipelineEvent, a: PipelineAction) -> bool {
    if cancellation_requested {
        a is Discard
    } else {
        match event {
            PipelineEvent::AudioDrained { chunks_sent } => if chunks_sent == 0 {
                a is FinishSilent
            } else {
                a is Transcribe
            },
            PipelineEvent::Transcribed(Ok(text)) => if text@.len() == 0 {
                a is FinishEmpty
            } else {
                a == PipelineAction::Polish(text)
            },
            PipelineEvent::Transcribed(Err(e)) => a == PipelineAction::FinishFailed(e),
            PipelineEvent::Polished { raw_text, final_text, polish_time_ms } => if final_text@.len() == 0 {
                a is FinishEmpty
            } else {
                a == (PipelineAction::FinishWithText { raw_text, final_text, polish_time_ms })
            },
        }
    }
}

/// Decides the task's next step.
pub fn next_pipeline_action(cancellation_requested: bool, event: PipelineEvent) -> (a: PipelineAction)
    ensures
        next_action_spec(cancellation_requested, event, a),
{
    if cancellation_requested {
        return PipelineAction::Discard;
    }
    match event {
        PipelineEvent::AudioDrained { chunks_sent } => {
            if chunks_sent == 0 {
                PipelineAction::FinishSilent
            } else {
                PipelineAction::Transcribe
            }
        },
        PipelineEvent::Transcribed(Ok(text)) => {
            if text.unicode_len() == 0 {
                PipelineAction::FinishEmpty
            } else {
                PipelineAction::Polish(text)
            }
        },
        PipelineEvent::Transcribed(Err(e)) => PipelineAction::FinishFailed(e),
        PipelineEvent::Polished { raw_text, final_text, polish_time_ms } => {
            if final_text.unicode_len() == 0 {
                PipelineAction::FinishEmpty
            } else {
                PipelineAction::FinishWithText { raw_text, final_text, polish_time_ms }
            }
        },
    }
}

/// Law: a task whose cancellation was asked for is discarded whatever
/// happens to it, and only such a task is discarded.
pub proof fn lemma_cancelled_task_is_always_discarded(c: bool, event: PipelineEvent, a: PipelineAction)
    requires
        next_action_spec(c, event, a),
    ensures
        c <==> a is Discard,
{
}

} // verus!
