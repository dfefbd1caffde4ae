use ariatype::audio::beep::{
    disable_beep, enable_beep, initialize_beep_player, play_start_beep, play_stop_beep, BeepMessage, BeepPlayer,
};
use ariatype::audio::meter::{LevelMeter, StreamProcessorStats};
use ariatype::history::stats::{approximate_output_units, calculate_streaks};
use ariatype::permissions::{
    apply_permission, check_permission, MacosPermissions, MacosRequest, PermissionKind, PermissionProvider,
    WindowsPermissions,
};
use ariatype::polish::cloud::{CloudApi, CloudPolishEngine, CloudProviderConfig};
use ariatype::polish::gemma_engine::GemmaPolishEngine;
use ariatype::polish::traits::{PolishEngineType, PolishRequest};
use ariatype::window_context::{context_from_recognized_text, MAX_CONTEXT_CHARS};

fn test_config(provider_type: &str, api_key: &str, base_url: &str, model: &str) -> CloudProviderConfig {
    CloudProviderConfig {
        provider_type: provider_type.to_string(),
        api_key: api_key.to_string(),
        base_url: base_url.to_string(),
        model: model.to_string(),
        enable_thinking: false,
    }
}

#[test]
fn test_cloud_polish_engine_type() {
    let engine = CloudPolishEngine::new(test_config("anthropic", "test-key", "", "sonnet-3"));
    assert_eq!(engine.engine_type(), PolishEngineType::Cloud);
}

#[test]
fn test_get_api_url_anthropic() {
    let engine = CloudPolishEngine::new(test_config("anthropic", "test", "", "opus-3"));
    assert_eq!(engine.get_api_url(), "https://api.anthropic.com/v1/messages");
}

#[test]
fn test_get_api_url_openai() {
    let engine = CloudPolishEngine::new(test_config("openai", "test", "", "gpt-4"));
    assert_eq!(engine.get_api_url(), "https://api.openai.com/v1/chat/completions");
}

#[test]
fn test_get_api_url_custom_domain_only() {
    let engine = CloudPolishEngine::new(test_config("custom", "test", "https://custom.api.com/", "custom-model"));
    assert_eq!(engine.get_api_url(), "https://custom.api.com/v1/chat/completions");
}

#[test]
fn test_get_api_url_custom_with_v1_suffix_anthropic() {
    let engine = CloudPolishEngine::new(test_config(
        "anthropic",
        "test",
        "https://coding.dashscope.aliyuncs.com/apps/anthropic/v1",
        "qwen3.5-plus",
    ));
    assert_eq!(engine.get_api_url(), "https://coding.dashscope.aliyuncs.com/apps/anthropic/v1/messages");
}

#[test]
fn test_get_api_url_custom_with_v1_suffix_openai() {
    let engine = CloudPolishEngine::new(test_config(
        "openai",
        "test",
        "https://dashscope.aliyuncs.com/compatible-mode/v1",
        "qwen3.5-plus",
    ));
    assert_eq!(engine.get_api_url(), "https://dashscope.aliyuncs.com/compatible-mode/v1/chat/completions");
}

#[test]
fn test_get_api_url_already_has_messages() {
    let engine = CloudPolishEngine::new(test_config("custom", "test", "https://api.example.com/v1/messages", "model"));
    assert_eq!(engine.get_api_url(), "https://api.example.com/v1/messages");
}

#[test]
fn test_is_coding_plan_endpoint() {
    let engine_coding = CloudPolishEngine::new(test_config("openai", "test", "https://coding.dashscope.aliyuncs.com/v1", "qwen"));
    let engine_intl =
        CloudPolishEngine::new(test_config("openai", "test", "https://coding-intl.dashscope.aliyuncs.com/v1", "qwen"));
    let engine_other = CloudPolishEngine::new(test_config("openai", "test", "https://api.openai.com/v1", "gpt-4"));
    assert!(engine_coding.is_coding_plan_endpoint());
    assert!(engine_intl.is_coding_plan_endpoint());
    assert!(!engine_other.is_coding_plan_endpoint());
}

#[test]
fn auth_headers_depend_on_the_provider() {
    let a = CloudPolishEngine::new(test_config("anthropic", "k1", "", "m"));
    assert_eq!(a.get_auth_header(), ("x-api-key".to_string(), "k1".to_string()));
    let o = CloudPolishEngine::new(test_config("openai", "k2", "", "m"));
    assert_eq!(o.get_auth_header(), ("Authorization".to_string(), "Bearer k2".to_string()));
}

#[test]
fn cloud_requests_need_a_key_and_a_model() {
    let request = PolishRequest::new("text", "", "en");
    let no_key = CloudPolishEngine::new(test_config("openai", "", "", "m"));
    assert_eq!(no_key.prepare(&request).unwrap_err(), "Cloud polish API key not configured");
    let no_model = CloudPolishEngine::new(test_config("openai", "k", "", ""));
    assert_eq!(no_model.prepare(&request).unwrap_err(), "Cloud polish model not configured");
    let mut cfg = test_config("openai", "k", "https://coding.dashscope.aliyuncs.com/v1", "qwen");
    cfg.enable_thinking = true;
    let call = CloudPolishEngine::new(cfg).prepare(&request).unwrap();
    assert_eq!(call.api, CloudApi::OpenAiCompatible);
    assert_eq!(call.enable_thinking, Some(true));
    assert_eq!(call.user_agent_override, Some("opencode/1.0.0"));
    assert!(call.system_prompt.starts_with("You are a text polishing assistant."));
    assert_eq!(call.user_message, "text");
}

#[test]
fn gemma_engine_needs_a_present_named_model() {
    let engine = GemmaPolishEngine::new();
    assert_eq!(engine.engine_type(), PolishEngineType::Gemma);
    let request = PolishRequest::new("text", "prompt", "en");
    assert_eq!(engine.prepare(&request, true).unwrap_err(), "Model name required");
    let request = request.with_model("gemma-2b-it.Q4_K_M.gguf");
    assert_eq!(engine.prepare(&request, false).unwrap_err(), "Model not found: gemma-2b-it.Q4_K_M.gguf");
    let job = engine.prepare(&request, true).unwrap();
    assert_eq!(job.system_prompt, "prompt");
    assert!(!engine.engine_config().strip_think_tags);
}

#[test]
fn truncation_preserves_first_800_chars() {
    let long_text = "a".repeat(1000);
    let result = context_from_recognized_text(&long_text).unwrap();
    assert_eq!(result.chars().count(), MAX_CONTEXT_CHARS);
}

#[test]
fn truncation_keeps_short_text_unchanged() {
    assert_eq!(context_from_recognized_text("hello world"), Some("hello world".to_string()));
}

#[test]
fn empty_string_returns_none_after_trim() {
    assert_eq!(context_from_recognized_text("   "), None);
}

#[test]
fn max_context_chars_constant_is_reasonable() {
    assert!(MAX_CONTEXT_CHARS >= 500);
    assert!(MAX_CONTEXT_CHARS <= 1000);
}

#[test]
fn beeps_are_debounced_and_skipped_when_off() {
    let mut player = BeepPlayer::new();
    assert_eq!(player.beep_at(BeepMessage::PlayStart, 1_000), None);
    initialize_beep_player(&mut player, true);
    assert_eq!(player.beep_at(BeepMessage::PlayStart, 1_100), None);
    assert_eq!(player.beep_at(BeepMessage::PlayStop, 1_400), Some(BeepMessage::PlayStop));
    disable_beep(&mut player);
    assert!(!player.is_enabled());
    enable_beep(&mut player);
    assert_eq!(player.beep_at(BeepMessage::PlayStart, 1_699), None);
    assert_eq!(player.last_beep_time, 1_400);
    let now_beep = play_start_beep(&mut player);
    assert_eq!(now_beep, Some(BeepMessage::PlayStart));
    assert_eq!(play_stop_beep(&mut player), None);
}

#[test]
fn level_meter_reads_back_the_level() {
    let mut meter = LevelMeter::default();
    assert_eq!(meter.get_level(), 0);
    meter.set_level(42);
    assert_eq!(meter.get_level(), 42);
    let stats = StreamProcessorStats::default();
    assert_eq!(stats.total_chunks, 0);
}

#[test]
fn output_units_count_ideographs_and_words() {
    assert_eq!(approximate_output_units("draft release note"), 3);
    assert_eq!(approximate_output_units("你好世界"), 4);
    assert_eq!(approximate_output_units("sprint planning notes"), 3);
    assert_eq!(approximate_output_units("alpha beta"), 2);
    assert_eq!(approximate_output_units("hi,there 你好"), 4);
    assert_eq!(approximate_output_units(""), 0);
}

#[test]
fn streaks_count_consecutive_active_days() {
    assert_eq!(calculate_streaks(&vec![], 100), (0, 0));
    assert_eq!(calculate_streaks(&vec![98, 99, 100], 100), (3, 3));
    assert_eq!(calculate_streaks(&vec![90, 91, 92, 93, 98, 99], 100), (2, 4));
    assert_eq!(calculate_streaks(&vec![90, 91], 100), (0, 2));
    assert_eq!(calculate_streaks(&vec![97, 99], 100), (1, 1));
}

struct FixedPermissions;

impl PermissionProvider for FixedPermissions {
    fn check_accessibility(&self) -> String {
        "granted".to_string()
    }
    fn check_input_monitoring(&self) -> String {
        "denied".to_string()
    }
    fn check_microphone(&self) -> String {
        "not_determined".to_string()
    }
    fn apply_accessibility(&self) -> Result<(), String> {
        Ok(())
    }
    fn apply_input_monitoring(&self) -> Result<(), String> {
        Err("unsupported".to_string())
    }
    fn apply_microphone(&self) -> Result<(), String> {
        Ok(())
    }
}

#[test]
fn permission_requests_name_their_kind() {
    let p = FixedPermissions;
    assert_eq!(check_permission(&p, "accessibility"), "granted");
    assert_eq!(check_permission(&p, "input_monitoring"), "denied");
    assert_eq!(check_permission(&p, "camera"), "not_determined");
    assert_eq!(apply_permission(&p, "input_monitoring"), Err("unsupported".to_string()));
    assert_eq!(apply_permission(&p, "camera"), Err("Unknown permission kind: camera".to_string()));
}

use ariatype::maintenance::{is_old_log_file, legacy_model_entry, LegacyModelEntry};
use ariatype::shortcut::{startup_registrations, ShortcutAction, ShortcutProfile, ShortcutProfilesMap, ShortcutTriggerMode};
use ariatype::transcription::retry::{retry_outcome, should_polish_retry, RetryOutcome};
use ariatype::window::{pill_position, pill_visibility, PillVisibility};

#[test]
fn pill_visibility_follows_the_indicator_mode() {
    assert_eq!(pill_visibility("never", true, true), PillVisibility::Hide);
    assert_eq!(pill_visibility("when_recording", false, false), PillVisibility::Keep);
    assert_eq!(pill_visibility("when_recording", false, true), PillVisibility::Show);
    assert_eq!(pill_visibility("always", false, false), PillVisibility::Show);
}

#[test]
fn pill_positions_follow_the_preset() {
    assert_eq!(pill_position("top-left", 100, 50, 1920, 1080, 140, 80, 20), (120, 70));
    assert_eq!(pill_position("top-center", 0, 0, 1920, 1080, 140, 80, 20), (890, 20));
    assert_eq!(pill_position("bottom-right", 0, 0, 1920, 1080, 140, 80, 20), (1760, 980));
    assert_eq!(pill_position("anything", 0, 0, 1920, 1080, 140, 80, 20), (890, 980));
    assert_eq!(pill_position("top-center", 0, 0, 100, 1080, 141, 80, 20), (-20, 20));
}

#[test]
fn old_logs_and_former_model_files_are_recognised() {
    assert!(is_old_log_file("ariatype.log.2024-01-01", true, Some(5), 10));
    assert!(!is_old_log_file("ariatype.log.2024-01-01", true, Some(15), 10));
    assert!(!is_old_log_file("other.log", true, Some(5), 10));
    assert!(!is_old_log_file("ariatype.log", false, Some(5), 10));
    assert!(!is_old_log_file("ariatype.log", true, None, 10));
    assert_eq!(legacy_model_entry("m.GGUF", true, false, Some("GGUF")), Some(LegacyModelEntry::File));
    assert_eq!(legacy_model_entry("m.onnx", true, false, Some("onnx")), None);
    assert_eq!(legacy_model_entry("base.ggml", false, true, None), Some(LegacyModelEntry::Directory));
    assert_eq!(legacy_model_entry("base", false, true, None), None);
}

#[test]
fn retries_fail_without_text() {
    assert!(!should_polish_retry(&Ok(String::new())));
    assert!(should_polish_retry(&Ok("x".to_string())));
    match retry_outcome(Err("timeout".to_string()), String::new()) {
        RetryOutcome::Failed { entry_error, error } => {
            assert_eq!(entry_error, "timeout");
            assert_eq!(error, "Transcription failed: timeout");
        },
        other => panic!("unexpected {:?}", other),
    }
    match retry_outcome(Ok("raw".to_string()), String::new()) {
        RetryOutcome::Failed { error, .. } => assert_eq!(error, "Retry produced empty transcription"),
        other => panic!("unexpected {:?}", other),
    }
    match retry_outcome(Ok("raw".to_string()), "Raw.".to_string()) {
        RetryOutcome::Succeeded(t) => assert_eq!(t, "Raw."),
        other => panic!("unexpected {:?}", other),
    }
}

#[test]
fn startup_registers_profiles_that_have_hotkeys() {
    let mut m = ShortcutProfilesMap::default_profiles();
    let keys: Vec<&str> = startup_registrations(&m).iter().map(|(k, _)| *k).collect();
    assert_eq!(keys, vec!["dictate"]);
    m.riff.hotkey = "Cmd+R".to_string();
    m.custom = Some(ShortcutProfile {
        hotkey: "Cmd+K".to_string(),
        trigger_mode: ShortcutTriggerMode::Toggle,
        action: ShortcutAction::Record { polish_template_id: None },
    });
    let keys: Vec<&str> = startup_registrations(&m).iter().map(|(k, _)| *k).collect();
    assert_eq!(keys, vec!["dictate", "riff", "custom"]);
}

#[test]
fn macos_statuses_follow_the_system_answers() {
    assert_eq!(MacosPermissions::accessibility_status(true), "granted");
    assert_eq!(MacosPermissions::accessibility_status(false), "denied");
    assert_eq!(MacosPermissions::input_monitoring_status(0), "granted");
    assert_eq!(MacosPermissions::input_monitoring_status(1), "denied");
    assert_eq!(MacosPermissions::microphone_status(3), "granted");
    assert_eq!(MacosPermissions::microphone_status(2), "denied");
    assert_eq!(MacosPermissions::microphone_status(1), "denied");
    assert_eq!(MacosPermissions::microphone_status(0), "not_determined");
}

#[test]
fn macos_microphone_request_shows_the_dialog_only_while_undetermined() {
    assert_eq!(
        MacosPermissions::request(PermissionKind::Microphone, "not_determined"),
        MacosRequest::MicrophoneDialog
    );
    assert_eq!(
        MacosPermissions::request(PermissionKind::Microphone, "denied"),
        MacosRequest::OpenSettings(
            "x-apple.systempreferences:com.apple.preference.security?Privacy_Microphone".to_string()
        )
    );
    assert_eq!(
        MacosPermissions::request(PermissionKind::InputMonitoring, "not_determined"),
        MacosRequest::OpenSettings(
            "x-apple.systempreferences:com.apple.preference.security?Privacy_ListenEvent".to_string()
        )
    );
}

#[test]
fn windows_gates_only_the_microphone() {
    assert_eq!(WindowsPermissions::status(PermissionKind::Accessibility, false), "granted");
    assert_eq!(WindowsPermissions::status(PermissionKind::InputMonitoring, false), "granted");
    assert_eq!(WindowsPermissions::status(PermissionKind::Microphone, true), "granted");
    assert_eq!(WindowsPermissions::status(PermissionKind::Microphone, false), "not_determined");
    assert_eq!(
        WindowsPermissions::settings_page(PermissionKind::Microphone),
        Some("ms-settings:privacy-microphone".to_string())
    );
    assert_eq!(WindowsPermissions::settings_page(PermissionKind::InputMonitoring), None);
}
