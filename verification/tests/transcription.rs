use ariatype::polish::cloud::{openai_response_text, CloudPolishEngine, OpenAiChoice, OpenAiMessage, OpenAiResponse};
use ariatype::polish::traits::PolishRequest;
use ariatype::polish::traits::{PolishEngineType, PolishResult};
use ariatype::recording::state::AppState;
use ariatype::settings::configs::{CloudProviderConfig, CustomPolishTemplate};
use ariatype::transcription::finalize::{
    finalize_empty_transcription, finalize_failed_transcription, finalize_successful_transcription, FinalizeResult,
};
use ariatype::transcription::polish_guard::{accept_polish_result, should_reject_question_answer_polish};
use ariatype::transcription::polish_plan::{
    local_polish_target, plan_polish, polish_outcome, resolve_template_prompt, LocalPolishTarget, PolishPlan,
};
use ariatype::polish::manager::UnifiedPolishManager;
use ariatype::polish::templates::get_template_by_id;

#[test]
fn rejects_polish_output_that_answers_a_dictated_question() {
    let input = "哎，你觉得这个功能现在完整了吗？咱们达到可以发布0.1版本的时候了吗？所有东西都就绪了吗？";
    let output = "我觉得这个功能现在还不够完整，还没到可以发布 0.1 版本的时候，还不是所有东西都就绪了。";
    assert!(should_reject_question_answer_polish(input, output));
}

#[test]
fn accepts_polish_output_that_preserves_a_question() {
    let input = "看一下最终的结果，我们当前是不是可以发布0.1版本了？还差哪些东西？";
    let output = "看一下最终的结果，我们当前是不是可以发布 0.1 版本了？还差哪些东西？";
    assert!(!should_reject_question_answer_polish(input, output));
}

#[test]
fn accepts_non_question_polish_output() {
    let input = "嗯，我觉得这个功能现在已经完整了";
    let output = "我觉得这个功能现在已经完整了。";
    assert!(!should_reject_question_answer_polish(input, output));
}

#[test]
fn rejected_polish_keeps_the_transcript_without_polish_time() {
    let input = "What should we ship first?".to_string();
    let answer = "I think we should ship the editor.".to_string();
    assert_eq!(accept_polish_result(1, input.clone(), answer, 900, "local"), (input, 0));
    let fine = accept_polish_result(1, "um hello".to_string(), "Hello.".to_string(), 900, "local");
    assert_eq!(fine, ("Hello.".to_string(), 900));
}

#[test]
fn polish_outcome_falls_back_on_empty_or_failed_results() {
    let t = "raw text".to_string();
    let empty = PolishResult::new(String::new(), PolishEngineType::Qwen, 10);
    assert_eq!(polish_outcome(1, t.clone(), Ok(empty), "local"), (t.clone(), 0));
    assert_eq!(polish_outcome(1, t.clone(), Err("boom".to_string()), "cloud"), (t.clone(), 0));
    let good = PolishResult::new("Raw text.".to_string(), PolishEngineType::Cloud, 42);
    assert_eq!(polish_outcome(1, t, Ok(good), "cloud"), ("Raw text.".to_string(), 42));
}

#[test]
fn template_prompt_prefers_builtin_then_custom_then_filler() {
    let custom = vec![CustomPolishTemplate {
        id: "mine".to_string(),
        name: "Mine".to_string(),
        system_prompt: "my prompt".to_string(),
    }];
    let formal = get_template_by_id("formal").unwrap().system_prompt.to_string();
    let filler = get_template_by_id("filler").unwrap().system_prompt.to_string();
    assert_eq!(resolve_template_prompt("formal", &custom), formal);
    assert_eq!(resolve_template_prompt("mine", &custom), "my prompt");
    assert_eq!(resolve_template_prompt("missing", &custom), filler);
}

#[test]
fn polish_plan_uses_cloud_only_with_a_usable_active_provider() {
    let mut state = AppState::new();
    assert!(matches!(plan_polish(&state.settings, None), PolishPlan::Skip));
    state.settings.polish_model = "qwen3.5-0.8b".to_string();
    match plan_polish(&state.settings, Some("filler")) {
        PolishPlan::Local { model_id, .. } => assert_eq!(model_id, "qwen3.5-0.8b"),
        other => panic!("expected local plan, got {:?}", other),
    }
    state.settings.cloud_polish_enabled = true;
    state.settings.active_cloud_polish_provider = "openai".to_string();
    state.settings.set_cloud_polish_config(
        "openai".to_string(),
        CloudProviderConfig {
            enabled: true,
            provider_type: "openai".to_string(),
            api_key: "test_openai_api_key".to_string(),
            base_url: String::new(),
            model: "gpt-4o-mini".to_string(),
            enable_thinking: false,
        },
    );
    match plan_polish(&state.settings, Some("filler")) {
        PolishPlan::Cloud { provider, config, .. } => {
            assert_eq!(provider, "openai");
            assert_eq!(config.model, "gpt-4o-mini");
        },
        other => panic!("expected cloud plan, got {:?}", other),
    }
}

#[test]
fn local_target_needs_a_known_downloaded_model() {
    let manager = UnifiedPolishManager::new();
    let present = vec!["Qwen3.5-0.8B-Q5_K_M.gguf".to_string()];
    assert!(matches!(local_polish_target(&manager, "", &present), LocalPolishTarget::NoModel));
    assert!(matches!(local_polish_target(&manager, "gpt-4", &present), LocalPolishTarget::UnknownEngine));
    assert!(matches!(local_polish_target(&manager, "lfm2.5-1.2b", &present), LocalPolishTarget::NotDownloaded));
    match local_polish_target(&manager, "qwen3.5-0.8b", &present) {
        LocalPolishTarget::Ready { engine, model_filename } => {
            assert_eq!(engine, PolishEngineType::Qwen);
            assert_eq!(model_filename, "Qwen3.5-0.8B-Q5_K_M.gguf");
        },
        other => panic!("expected a ready target, got {:?}", other),
    }
}

#[test]
fn finalize_successful_transcription_requests_text_delivery() {
    let state = AppState::new();
    let (action, entry) =
        finalize_successful_transcription(&state, "raw text", "final text", 123, Some("a.wav".to_string()), Some("whisper"));
    assert_eq!(action, FinalizeResult::DeliverText("final text".to_string()));
    assert_eq!(entry.raw_text, "raw text");
    assert_eq!(entry.polish_duration_ms, Some(123));
    assert!(entry.polish_applied);
    assert_eq!(entry.status, "success");
    assert_eq!(entry.stt_engine, "whisper");
    assert_eq!(entry.audio_path, Some("a.wav".to_string()));
}

#[test]
fn finalize_empty_transcription_saves_failed_history_and_returns_idle() {
    let mut state = AppState::new();
    state.settings.stt_engine_language = String::new();
    let (action, entry) = finalize_empty_transcription(&state, None, None);
    assert_eq!(action, FinalizeResult::TransitionToIdle);
    assert_eq!(entry.status, "error");
    assert_eq!(entry.error.as_deref(), Some("Empty transcription result"));
    assert_eq!(entry.stt_engine, "unknown");
    assert_eq!(entry.language, None);
    assert_eq!(entry.audio_duration_ms, None);
}

#[test]
fn finalize_failed_transcription_saves_failed_history_and_returns_error() {
    let mut state = AppState::new();
    state.settings.cloud_stt_enabled = true;
    let (action, entry) = finalize_failed_transcription(&state, None, "network failed", Some("whisper"));
    assert_eq!(action, FinalizeResult::TransitionToError);
    assert_eq!(entry.error.as_deref(), Some("network failed"));
    assert_eq!(entry.stt_engine, "cloud-volcengine-streaming");
    assert!(entry.is_cloud);
    assert_eq!(entry.stt_model, Some(String::new()));
}

#[test]
fn default_settings_keep_everything_local() {
    let settings = ariatype::settings::app_settings::AppSettings::default();
    assert!(!settings.get_active_cloud_stt_config().enabled);
    assert!(!settings.is_streaming_stt_active());
    for template in ["filler", "formal", "unknown"] {
        assert!(matches!(plan_polish(&settings, Some(template)), PolishPlan::Local { .. }));
    }
}

#[test]
fn streaming_finalization_honors_cloud_polish_settings() {

    let base_url = "http://127.0.0.1:4010".to_string();
    let mut state = AppState::new();
    state.settings.active_cloud_polish_provider = "openai".to_string();
    state.settings.stt_engine_language = "en-US".to_string();
    state.settings.set_cloud_polish_config(
        "openai".to_string(),
        CloudProviderConfig {
            enabled: true,
            provider_type: "openai".to_string(),
            api_key: "test_openai_api_key".to_string(),
            base_url: base_url.clone(),
            model: "gpt-4o-mini".to_string(),
            enable_thinking: false,
        },
    );

    let transcript = "User text here".to_string();
    let (provider, config, system_prompt, language) = match plan_polish(&state.settings, Some("filler")) {
        PolishPlan::Cloud { provider, config, system_prompt, language } => (provider, config, system_prompt, language),
        other => panic!("expected cloud plan, got {:?}", other),
    };
    assert_eq!(provider, "openai");
    assert_eq!(config.api_key, "test_openai_api_key");
    assert_eq!(config.base_url, base_url);
    assert_eq!(config.model, "gpt-4o-mini");
    assert_eq!(language, "en-US");

    let engine = CloudPolishEngine::new(ariatype::polish::cloud::CloudProviderConfig {
        provider_type: provider,
        api_key: config.api_key.clone(),
        base_url: config.base_url.clone(),
        model: config.model.clone(),
        enable_thinking: config.enable_thinking,
    });
    let call = engine.prepare(&PolishRequest::new(&transcript, &system_prompt, &language)).unwrap();
    assert_eq!(call.url, "http://127.0.0.1:4010/v1/chat/completions");
    assert_eq!(call.user_message, "User text here");
    let headers = call.request_headers();
    assert!(headers.contains(&("Authorization".to_string(), "Bearer test_openai_api_key".to_string())));

    let answer = openai_response_text(&OpenAiResponse {
        choices: vec![OpenAiChoice { message: OpenAiMessage { content: "Polished streaming text".to_string() } }],
    });
    let polished = PolishResult::new(answer, PolishEngineType::Cloud, 5);
    let (final_text, _polish_time_ms) = polish_outcome(1, transcript, Ok(polished), "cloud");
    assert_eq!(final_text, "Polished streaming text");
}
