//! Starting, stopping and cancelling a recording task.
use vstd::prelude::*;

use crate::clock::unix_time_ms;
use crate::recording::state::{session_task, AppState, RecordingSession};
use crate::settings::app_settings::{active_stt_config_spec, is_streaming_provider};
use crate::settings::configs::CloudSttConfig;

verus! {

/// What a new recording task is started with.
#[derive(Debug)]
pub struct PreparedRecordingStart {
    pub task_id: u64,
    pub cloud_stt_enabled: bool,
    pub cloud_stt_config: CloudSttConfig,
    pub language: String,
}

/// The task a stop request ends.
#[derive(Debug)]
pub struct PreparedRecordingStop {
    pub task_id: u64,
}

/// The task a cancel request ends, and whether the recorder still runs.
#[derive(Debug)]
pub struct PreparedRecordingCancellation {
    pub task_id: u64,
    pub should_stop_recorder: bool,
}

/// Hands out the next task number.
pub fn allocate_task_id(state: &mut AppState) -> (id: u64)
    requires
        old(state).task_counter < u64::MAX,
    ensures
        id == old(state).task_counter + 1,
        *final(state) == (AppState { task_counter: id, ..*old(state) }),
{
    state.task_counter = state.task_counter + 1;
    state.task_counter
}

/// The state after a task was started at `now_ms`: the next task number, an
/// empty session for it and the start time; the settings read for the task
/// are those of the state.
pub open spec fn recording_started(before: AppState, after: AppState, p: PreparedRecordingStart, now_ms: u64) -> bool {
    &&& p.task_id == before.task_counter + 1
    &&& p.cloud_stt_enabled == (before.settings.cloud_stt_enabled && is_streaming_provider(
        before.settings.active_cloud_stt_provider@,
    ))
    &&& active_stt_config_spec(before.settings, p.cloud_stt_config)
    &&& p.language == before.settings.stt_engine_language
    &&& after == (AppState {
        task_counter: p.task_id,
        session: Some(RecordingSession { task_id: p.task_id, text: after.session->0.text }),
        recording_start_time: now_ms,
        ..before
    })
    &&& after.session->0.text@ == Seq::<char>::empty()
}

/// Starts a task whose recording began at `now_ms`.
pub fn prepare_recording_start_at(state: &mut AppState, now_ms: u64) -> (p: PreparedRecordingStart)
    requires
        old(state).task_counter < u64::MAX,
    ensures
        recording_started(*old(state), *final(state), p, now_ms),
{
    let cloud_stt_enabled = state.settings.is_volcengine_streaming_active();
    let cloud_stt_config = state.settings.get_active_cloud_stt_config();
    let language = state.settings.stt_engine_language.clone();
    let task_id = allocate_task_id(state);
    state.start_session(task_id);
    state.recording_start_time = now_ms;
    PreparedRecordingStart { task_id, cloud_stt_enabled, cloud_stt_config, language }
}

/// Starts a task now, by the system clock.
pub fn prepare_recording_start(state: &mut AppState) -> (p: PreparedRecordingStart)
    requires
        old(state).task_counter < u64::MAX,
    ensures
        recording_started(*old(state), *final(state), p, final(state).recording_start_time),
{
    let now_ms = unix_time_ms();
    prepare_recording_start_at(state, now_ms)
}

/// Stops the current recording: nothing when none runs; otherwise the
/// recording flag is cleared and the level monitor told to stop.
pub fn prepare_recording_stop(state: &mut AppState) -> (r: Option<PreparedRecordingStop>)
    ensures
        !old(state).is_recording ==> r is None && *final(state) == *old(state),
        old(state).is_recording ==> {
            &&& r matches Some(p) && p.task_id == old(state).task_counter
            &&& *final(state) == (AppState {
                is_recording: false,
                level_monitor_signals: final(state).level_monitor_signals,
                ..*old(state)
            })
            &&& final(state).level_monitor_signals@ == old(state).level_monitor_signals@.push(false)
        },
{
    if !state.is_recording {
        return None;
    }
    let task_id = state.task_counter;
    state.is_recording = false;
    state.notify_level_monitor(false);
    Some(PreparedRecordingStop { task_id })
}

/// Cancels the current task: nothing when idle; otherwise cancellation of
/// the current task is asked for, both flags cleared, the level monitor told
/// to stop and the session dropped.  The recorder must be stopped if it was
/// recording.
pub fn prepare_recording_cancellation(state: &mut AppState) -> (r: Option<PreparedRecordingCancellation>)
    ensures
        !old(state).is_recording && !old(state).is_transcribing ==> r is None && *final(state) == *old(state),
        old(state).is_recording || old(state).is_transcribing ==> {
            &&& r matches Some(p) && p.task_id == old(state).task_counter && p.should_stop_recorder
                == old(state).is_recording
            &&& *final(state) == (AppState {
                is_recording: false,
                is_transcribing: false,
                session: None,
                canceled_tasks: final(state).canceled_tasks,
                level_monitor_signals: final(state).level_monitor_signals,
                ..*old(state)
            })
            &&& final(state).canceled(old(state).task_counter)
            &&& forall|t: u64| t != old(state).task_counter ==> (final(state).canceled(t) <==> old(state).canceled(t))
            &&& final(state).level_monitor_signals@ == old(state).level_monitor_signals@.push(false)
        },
{
    let is_recording = state.is_recording;
    let is_transcribing = state.is_transcribing;
    if !is_recording && !is_transcribing {
        return None;
    }
    let task_id = state.task_counter;
    state.request_cancellation(task_id);
    state.is_recording = false;
    state.is_transcribing = false;
    state.notify_level_monitor(false);
    state.clear_session();
    Some(PreparedRecordingCancellation { task_id, should_stop_recorder: is_recording })
}

/// Undoes a task's start unless the start was committed.  Give it back with
/// [`RecordingStartGuard::release`] when the start attempt is over.
#[derive(Debug)]
pub struct RecordingStartGuard {
    pub task_id: u64,
    pub committed: bool,
}

/// The state after an uncommitted start of `task_id` was undone: when the
/// task still has the session, the session is closed, both flags cleared
/// and the start time reset; otherwise nothing changes.
pub open spec fn start_rolled_back(before: AppState, after: AppState, task_id: u64) -> bool {
    if session_task(before.session) == Some(task_id) {
        after == (AppState {
            session: None,
            is_recording: false,
            is_transcribing: false,
            recording_start_time: 0,
            ..before
        })
    } else {
        after == before
    }
}

impl RecordingStartGuard {
    /// A guard for the start of `task_id`, not yet committed.
    pub fn new(task_id: u64) -> (g: Self)
        ensures
            g.task_id == task_id,
            !g.committed,
    {
        RecordingStartGuard { task_id, committed: false }
    }

    /// Marks the start as successful.
    pub fn commit(&mut self)
        ensures
            final(self).committed,
            final(self).task_id == old(self).task_id,
    {
        self.committed = true;
    }

    /// Ends the start attempt: a committed start is kept; an uncommitted one
    /// is undone.
    pub fn release(self, state: &mut AppState)
        ensures
            self.committed ==> *final(state) == *old(state),
            !self.committed ==> start_rolled_back(*old(state), *final(state), self.task_id),
    {
        if self.committed {
            return;
        }
        if state.finish_session(self.task_id).is_some() {
            state.is_recording = false;
            state.is_transcribing = false;
            state.recording_start_time = 0;
        }
    }
}

/// Marks the recorder as recording, unless it already is.  The answer says
/// whether to play the start beep.
pub fn begin_recording(state: &mut AppState) -> (r: Result<bool, String>)
    ensures
        old(state).is_recording ==> (r matches Err(e) && e@ == "Already recording"@) && *final(state) == *old(
            state,
        ),
        !old(state).is_recording ==> r == Ok::<bool, String>(old(state).settings.beep_on_record) && *final(state)
            == (AppState { is_recording: true, is_transcribing: false, ..*old(state) }),
{
    if state.is_recording {
        return Err(crate::text::owned("Already recording"));
    }
    state.is_recording = true;
    state.is_transcribing = false;
    Ok(state.settings.beep_on_record)
}

/// Keeps a start that succeeded and tells the level monitor to watch the
/// input.
pub fn commit_recording_start(state: &mut AppState, guard: &mut RecordingStartGuard)
    ensures
        final(guard).committed,
        final(guard).task_id == old(guard).task_id,
        final(state).level_monitor_signals@ == old(state).level_monitor_signals@.push(true),
        *final(state) == (AppState { level_monitor_signals: final(state).level_monitor_signals, ..*old(state) }),
{
    guard.commit();
    state.notify_level_monitor(true);
}

/// Law: a start that is not committed leaves no trace of the task: after
/// starting it and undoing it, the recorder is idle, has no session and no
/// start time, and the task counter has moved past the task.
pub proof fn lemma_uncommitted_start_leaves_idle(
    s0: AppState,
    s1: AppState,
    s2: AppState,
    p: PreparedRecordingStart,
    now_ms: u64,
)
    requires
        recording_started(s0, s1, p, now_ms),
        start_rolled_back(s1, s2, p.task_id),
    ensures
        !s2.is_recording,
        !s2.is_transcribing,
        s2.session is None,
        s2.recording_start_time == 0,
        s2.task_counter == s0.task_counter + 1,
        s2.settings == s0.settings,
        s2.canceled_tasks == s0.canceled_tasks,
{
}

/// Law: task numbers handed out one after another increase.
pub proof fn lemma_task_ids_increase(
    s0: AppState,
    s1: AppState,
    s2: AppState,
    p1: PreparedRecordingStart,
    p2: PreparedRecordingStart,
    t1: u64,
    t2: u64,
)
    requires
        recording_started(s0, s1, p1, t1),
        recording_started(s1, s2, p2, t2),
    ensures
        p1.task_id < p2.task_id,
        p2.task_id == s2.task_counter,
{
}

} // verus!
