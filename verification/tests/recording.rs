use ariatype::recording::lifecycle::{
    allocate_task_id, prepare_recording_cancellation, prepare_recording_start, prepare_recording_start_at,
    prepare_recording_stop, RecordingStartGuard,
};
use ariatype::recording::pipeline::{
    discard_canceled_result, next_pipeline_action, recording_chunk_size_samples, recording_options,
    should_emit_error_recovery_idle, should_unregister_cancel_hotkey_after_async_cleanup, use_vad_model,
    ChunkBuffer, PipelineAction, PipelineEvent,
};
use ariatype::recording::state::AppState;
use ariatype::settings::configs::CloudSttConfig;

#[test]
fn prepare_recording_start_captures_settings_and_starts_session() {
    let mut state = AppState::new();
    state.settings.stt_engine_language = "ja-JP".to_string();
    state.settings.cloud_stt_enabled = true;
    state.settings.active_cloud_stt_provider = "volcengine-streaming".to_string();
    state.settings.set_cloud_stt_config(
        "volcengine-streaming".to_string(),
        CloudSttConfig {
            enabled: true,
            provider_type: "volcengine-streaming".to_string(),
            api_key: "test-key".to_string(),
            app_id: "test-app".to_string(),
            base_url: "https://example.com".to_string(),
            model: "bigmodel_nostream".to_string(),
            language: "ja-JP".to_string(),
        },
    );

    let prepared = prepare_recording_start(&mut state);

    assert_eq!(prepared.task_id, 1);
    assert!(prepared.cloud_stt_enabled);
    assert_eq!(prepared.language, "ja-JP");
    assert_eq!(prepared.cloud_stt_config.provider_type, "volcengine-streaming");
    assert!(state.get_session_text(prepared.task_id).is_some());
    assert!(state.recording_start_time > 0);
}

#[test]
fn uncommitted_recording_start_guard_rolls_back_session_state() {
    let mut state = AppState::new();
    state.is_recording = true;
    state.is_transcribing = false;
    state.start_session(9);
    state.recording_start_time = 1234;

    {
        let guard = RecordingStartGuard::new(9);
        assert!(state.get_session_text(9).is_some());
        guard.release(&mut state);
    }

    assert!(state.get_session_text(9).is_none());
    assert!(!state.is_recording);
    assert!(!state.is_transcribing);
    assert_eq!(state.recording_start_time, 0);
}

#[test]
fn committed_recording_start_guard_preserves_session_state() {
    let mut state = AppState::new();
    state.is_recording = true;
    state.start_session(10);
    state.recording_start_time = 5678;

    let mut guard = RecordingStartGuard::new(10);
    guard.commit();
    guard.release(&mut state);

    assert!(state.get_session_text(10).is_some());
    assert!(state.is_recording);
    assert_eq!(state.recording_start_time, 5678);
}

#[test]
fn guard_of_a_replaced_session_changes_nothing() {
    let mut state = AppState::new();
    state.is_recording = true;
    state.start_session(11);
    state.recording_start_time = 77;
    RecordingStartGuard::new(10).release(&mut state);
    assert!(state.get_session_text(11).is_some());
    assert!(state.is_recording);
    assert_eq!(state.recording_start_time, 77);
}

#[test]
fn prepare_recording_stop_returns_none_when_not_recording() {
    let mut state = AppState::new();
    assert!(prepare_recording_stop(&mut state).is_none());
    assert!(state.level_monitor_signals.is_empty());
}

#[test]
fn prepare_recording_stop_clears_recording_flag_and_closes_level_monitor() {
    let mut state = AppState::new();
    state.is_recording = true;
    state.task_counter = 12;

    let prepared = prepare_recording_stop(&mut state).expect("stop preparation should exist");

    assert_eq!(prepared.task_id, 12);
    assert!(!state.is_recording);
    assert_eq!(state.level_monitor_signals, vec![false]);
}

#[test]
fn prepare_recording_cancellation_returns_none_when_idle() {
    let mut state = AppState::new();
    assert!(prepare_recording_cancellation(&mut state).is_none());
}

#[test]
fn prepare_recording_cancellation_marks_task_and_clears_session() {
    let mut state = AppState::new();
    state.is_recording = true;
    state.is_transcribing = true;
    state.task_counter = 14;
    state.start_session(14);
    state.append_session_text(14, "partial");
    assert_eq!(state.get_session_text(14), Some("partial".to_string()));

    let prepared = prepare_recording_cancellation(&mut state).expect("cancellation should be prepared");

    assert_eq!(prepared.task_id, 14);
    assert!(prepared.should_stop_recorder);
    assert!(state.is_cancellation_requested(14));
    assert!(!state.is_recording);
    assert!(!state.is_transcribing);
    assert!(state.get_session_text(14).is_none());
    assert_eq!(state.level_monitor_signals, vec![false]);
}

#[test]
fn prepare_recording_cancellation_keeps_recorder_running_flag_false_for_transcribe_only() {
    let mut state = AppState::new();
    state.is_transcribing = true;
    state.task_counter = 15;

    let prepared = prepare_recording_cancellation(&mut state).expect("transcribing task should cancel");

    assert_eq!(prepared.task_id, 15);
    assert!(!prepared.should_stop_recorder);
    assert!(state.is_cancellation_requested(15));
    assert!(!state.is_transcribing);
    assert!(!state.is_recording);
    assert_eq!(state.level_monitor_signals.len(), 1);
    assert_eq!(state.level_monitor_signals[0], false);
}

#[test]
fn task_ids_are_handed_out_in_order() {
    let mut state = AppState::new();
    assert_eq!(allocate_task_id(&mut state), 1);
    assert_eq!(allocate_task_id(&mut state), 2);
    let p = prepare_recording_start_at(&mut state, 99);
    assert_eq!(p.task_id, 3);
    assert_eq!(state.recording_start_time, 99);
    assert_eq!(state.get_session_text(3), Some(String::new()));
    assert!(state.get_session_text(2).is_none());
}

#[test]
fn async_cleanup_keeps_cancel_hotkey_while_hotkey_cancel_is_still_active() {
    assert!(!should_unregister_cancel_hotkey_after_async_cleanup(1, 1, true));
}

#[test]
fn async_cleanup_ignores_stale_task_after_a_new_recording_starts() {
    assert!(!should_unregister_cancel_hotkey_after_async_cleanup(2, 1, false));
}

#[test]
fn async_cleanup_unregisters_cancel_hotkey_only_for_current_non_canceled_task() {
    assert!(should_unregister_cancel_hotkey_after_async_cleanup(3, 3, false));
}

#[test]
fn error_recovery_idle_emits_only_for_the_same_finished_task() {
    assert!(should_emit_error_recovery_idle(7, 7, false, false));
}

#[test]
fn error_recovery_idle_skips_after_a_new_recording_starts() {
    assert!(!should_emit_error_recovery_idle(8, 7, true, false));
    assert!(!should_emit_error_recovery_idle(8, 7, false, true));
    assert!(!should_emit_error_recovery_idle(8, 7, false, false));
}

#[test]
fn recording_chunk_size_uses_200ms_of_device_audio() {
    assert_eq!(recording_chunk_size_samples(16_000, 1), 3_200);
    assert_eq!(recording_chunk_size_samples(48_000, 2), 19_200);
}

#[test]
fn discarding_a_canceled_result_only_clears_that_task() {
    let mut state = AppState::new();
    state.request_cancellation(5);
    state.request_cancellation(6);
    state.start_session(5);
    state.is_transcribing = true;

    discard_canceled_result(&mut state, 5);

    assert!(!state.is_cancellation_requested(5));
    assert!(state.is_cancellation_requested(6));
    assert!(!state.is_transcribing);
    assert!(state.get_session_text(5).is_none());
}

#[test]
fn chunks_are_handed_out_once_full() {
    let mut buffer = ChunkBuffer::new();
    assert_eq!(buffer.push(&[1, 2], 4), None);
    assert_eq!(buffer.push(&[3, 4, 5], 4), Some(vec![1, 2, 3, 4, 5]));
    assert!(buffer.samples.is_empty());
    assert_eq!(buffer.push(&[6], 4), None);
    assert_eq!(buffer.take_pending(16_000, 0), None);
    assert_eq!(buffer.take_pending(16_000, 1), Some(vec![6]));
    assert_eq!(buffer.take_pending(16_000, 1), None);
}

#[test]
fn recording_options_trim_and_drop_empty_settings() {
    let mut state = AppState::new();
    state.settings.stt_engine_work_domain = "  it ".to_string();
    state.settings.stt_engine_user_glossary = "   ".to_string();
    let o = recording_options(&state.settings);
    assert_eq!(o.device_name, None);
    assert_eq!(o.domain, Some("it".to_string()));
    assert_eq!(o.subdomain, None);
    assert_eq!(o.glossary, None);
    state.settings.audio_device = "USB Mic".to_string();
    assert_eq!(recording_options(&state.settings).device_name, Some("USB Mic".to_string()));
    assert!(use_vad_model(true, true));
    assert!(!use_vad_model(true, false));
}

#[test]
fn cancelled_tasks_are_discarded_at_every_step() {
    assert!(matches!(next_pipeline_action(true, PipelineEvent::AudioDrained { chunks_sent: 3 }), PipelineAction::Discard));
    assert!(matches!(next_pipeline_action(false, PipelineEvent::AudioDrained { chunks_sent: 0 }), PipelineAction::FinishSilent));
    assert!(matches!(next_pipeline_action(false, PipelineEvent::AudioDrained { chunks_sent: 2 }), PipelineAction::Transcribe));
    assert!(matches!(
        next_pipeline_action(false, PipelineEvent::Transcribed(Ok(String::new()))),
        PipelineAction::FinishEmpty
    ));
    match next_pipeline_action(false, PipelineEvent::Transcribed(Ok("hi".to_string()))) {
        PipelineAction::Polish(t) => assert_eq!(t, "hi"),
        other => panic!("unexpected {:?}", other),
    }
    match next_pipeline_action(false, PipelineEvent::Transcribed(Err("boom".to_string()))) {
        PipelineAction::FinishFailed(e) => assert_eq!(e, "boom"),
        other => panic!("unexpected {:?}", other),
    }
    assert!(matches!(
        next_pipeline_action(
            true,
            PipelineEvent::Polished { raw_text: "a".to_string(), final_text: "A".to_string(), polish_time_ms: 1 }
        ),
        PipelineAction::Discard
    ));
}

use ariatype::recording::lifecycle::{begin_recording, commit_recording_start};

#[test]
fn a_recording_cannot_begin_twice() {
    let mut state = AppState::new();
    state.is_transcribing = true;
    assert_eq!(begin_recording(&mut state), Ok(true));
    assert!(state.is_recording);
    assert!(!state.is_transcribing);
    assert_eq!(begin_recording(&mut state), Err("Already recording".to_string()));
    let p = prepare_recording_start_at(&mut state, 5);
    let mut guard = RecordingStartGuard::new(p.task_id);
    commit_recording_start(&mut state, &mut guard);
    assert!(guard.committed);
    assert_eq!(state.level_monitor_signals, vec![true]);
}
