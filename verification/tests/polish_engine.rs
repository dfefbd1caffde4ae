use ariatype::polish::cloud::{
    anthropic_response_text, openai_response_text, AnthropicContentBlock, AnthropicResponse, CloudPolishEngine,
    CloudProviderConfig, OpenAiChoice, OpenAiMessage, OpenAiResponse, APP_USER_AGENT, CLOUD_MAX_TOKENS,
};
use ariatype::polish::manager::{get_all_polish_models, PolishEngineInstance, PolishModelInfo, UnifiedPolishManager};
use ariatype::polish::templates::{get_all_templates, get_template_by_id, polish_templates};
use ariatype::polish::traits::{PolishEngineType, PolishRequest, PolishResult, SystemContext};

// ----- templates -----

#[test]
fn test_polish_templates_not_empty() {
    assert!(!polish_templates().is_empty());
    assert!(polish_templates().len() >= 6);
}

#[test]
fn test_get_template_by_id_filler() {
    let template = get_template_by_id("filler");
    assert!(template.is_some());
    let template = template.unwrap();
    assert_eq!(template.id, "filler");
    assert_eq!(template.name, "Clean Dictation");
    assert!(template.system_prompt.contains("Clean raw dictation"));
    assert!(template.system_prompt.contains("First correct STT errors"));
}

#[test]
fn test_get_template_by_id_chat() {
    let template = get_template_by_id("chat").unwrap();
    assert_eq!(template.id, "chat");
    assert_eq!(template.name, "Chat Reply");
    assert!(template.system_prompt.contains("chat message"));
}

#[test]
fn test_get_template_by_id_formal() {
    let template = get_template_by_id("formal").unwrap();
    assert_eq!(template.id, "formal");
    assert_eq!(template.name, "Professional Message");
    assert!(template.system_prompt.contains("professional"));
}

#[test]
fn test_get_template_by_id_concise() {
    let template = get_template_by_id("concise").unwrap();
    assert_eq!(template.id, "concise");
    assert_eq!(template.name, "Make Concise");
    assert!(template.system_prompt.contains("shorter") || template.system_prompt.contains("concise"));
}

#[test]
fn test_get_template_by_id_agent() {
    let template = get_template_by_id("agent").unwrap();
    assert_eq!(template.id, "agent");
    assert_eq!(template.name, "Agent Prompt");
    assert!(template.system_prompt.contains("plain-text instructions"));
    assert!(!template.description.contains("markdown"));
}

#[test]
fn test_get_template_by_id_document() {
    let template = get_template_by_id("document").unwrap();
    assert_eq!(template.id, "document");
    assert_eq!(template.name, "Structured Notes");
    assert!(template.system_prompt.contains("document prose"));
    assert!(template.system_prompt.contains("label lines ending with a colon"));
    assert!(template.system_prompt.contains("- Latency"));
}

#[test]
fn test_get_template_by_id_not_found() {
    assert!(get_template_by_id("nonexistent").is_none());
}

#[test]
fn test_get_all_templates() {
    let templates = get_all_templates();
    assert_eq!(templates.len(), polish_templates().len());
    let ids: Vec<&str> = templates.iter().map(|(id, _, _)| *id).collect();
    assert!(ids.contains(&"filler"));
    assert!(ids.contains(&"chat"));
    assert!(ids.contains(&"formal"));
    assert!(ids.contains(&"concise"));
    assert!(ids.contains(&"document"));
    assert!(ids.contains(&"agent"));
}

#[test]
fn test_all_templates_have_valid_fields() {
    for template in polish_templates() {
        assert!(!template.id.is_empty());
        assert!(!template.name.is_empty());
        assert!(!template.description.is_empty());
        assert!(!template.system_prompt.is_empty());
        assert!(
            template.system_prompt.contains("Keep language unchanged")
                || template.system_prompt.contains("SAME LANGUAGE")
                || template.system_prompt.contains("same language"),
            "Template '{}' missing language preservation instruction",
            template.id
        );
        assert!(
            template.system_prompt.contains("First correct STT errors"),
            "Template '{}' missing baseline STT correction instruction",
            template.id
        );
        assert!(
            template.system_prompt.contains("ordinary plain text"),
            "Template '{}' missing plain-text output instruction",
            template.id
        );
        assert!(
            template.system_prompt.contains("Do not ask the user to provide text"),
            "Template '{}' must not ask for more input when text is short",
            template.id
        );
    }
}

#[test]
fn test_templates_preserve_continue_as_text() {
    for template in polish_templates() {
        assert!(
            template.system_prompt.contains("Input: \"继续\"")
                && template.system_prompt.contains("Output: \"继续\"")
                || template.system_prompt.contains("Output:\n继续"),
            "Template '{}' must treat '继续' as text, not a request for more content",
            template.id
        );
    }
}

#[test]
fn test_all_templates_keep_transform_boundaries() {
    for template in polish_templates() {
        assert!(
            template.system_prompt.contains("Do not") && template.system_prompt.contains("add new"),
            "Template '{}' must forbid adding new information",
            template.id
        );
        assert!(
            template.system_prompt.contains("Output only the result"),
            "Template '{}' must output only the result",
            template.id
        );
    }
}

#[test]
fn test_template_ids_are_unique() {
    let templates = polish_templates();
    for (i, a) in templates.iter().enumerate() {
        for b in templates.iter().skip(i + 1) {
            assert_ne!(a.id, b.id, "Duplicate template ID found: {}", a.id);
        }
    }
}

#[test]
fn test_templates_do_not_request_markdown_output() {
    for template in polish_templates() {
        let prompt = template.system_prompt.to_lowercase();
        assert!(
            !prompt.contains("format as structured markdown")
                && !prompt.contains("markdown headings")
                && !prompt.contains("## task")
                && !prompt.contains("## 任务"),
            "Template '{}' must not request Markdown output",
            template.id
        );
    }
}

// ----- engine kinds, requests, results -----

#[test]
fn test_polish_engine_type_as_str() {
    assert_eq!(PolishEngineType::Qwen.as_str(), "qwen");
    assert_eq!(PolishEngineType::Lfm.as_str(), "lfm");
}

#[test]
fn polish_engine_type_names_of_every_kind() {
    assert_eq!(PolishEngineType::Gemma.as_str(), "gemma");
    assert_eq!(PolishEngineType::Cloud.as_str(), "cloud");
}

#[test]
fn test_polish_engine_type_all() {
    let all = PolishEngineType::all();
    assert_eq!(all.len(), 4);
    assert!(all.contains(&PolishEngineType::Qwen));
    assert!(all.contains(&PolishEngineType::Lfm));
    assert!(all.contains(&PolishEngineType::Gemma));
    assert!(all.contains(&PolishEngineType::Cloud));
}

#[test]
fn test_polish_engine_type_from_str() {
    assert_eq!("qwen".parse::<PolishEngineType>().unwrap(), PolishEngineType::Qwen);
    assert_eq!("lfm".parse::<PolishEngineType>().unwrap(), PolishEngineType::Lfm);
    assert_eq!("QWEN".parse::<PolishEngineType>().unwrap(), PolishEngineType::Qwen);
    assert_eq!("LFM".parse::<PolishEngineType>().unwrap(), PolishEngineType::Lfm);
}

#[test]
fn test_polish_engine_type_from_str_invalid() {
    assert!("invalid".parse::<PolishEngineType>().is_err());
    assert!("".parse::<PolishEngineType>().is_err());
    assert!("gpt".parse::<PolishEngineType>().is_err());
}

#[test]
fn test_polish_engine_type_display() {
    assert_eq!(PolishEngineType::Qwen.as_str().to_string(), "qwen");
    assert_eq!(PolishEngineType::Lfm.as_str().to_string(), "lfm");
}

#[test]
fn test_polish_request_new() {
    let request = PolishRequest::new("test text", "system prompt", "en");
    assert_eq!(request.text, "test text");
    assert_eq!(request.system_context.system_prompt, "system prompt");
    assert_eq!(request.language, "en");
    assert!(request.model_name.is_none());
    assert!(request.system_context.window_context.is_none());
}

#[test]
fn test_polish_request_with_model() {
    let request = PolishRequest::new("test", "prompt", "zh").with_model("model.gguf");
    assert_eq!(request.text, "test");
    assert_eq!(request.model_name, Some("model.gguf".to_string()));
}

#[test]
fn test_polish_request_with_window_context() {
    let request = PolishRequest::new("test", "prompt", "en").with_window_context("window text");
    assert_eq!(request.system_context.window_context, Some("window text".to_string()));
}

#[test]
fn test_system_context_effective_prompt() {
    let ctx = SystemContext::new("base prompt");
    assert_eq!(ctx.effective_prompt(), "base prompt");

    let ctx_with_window = SystemContext::new("base prompt").with_window_context("window content");
    let effective = ctx_with_window.effective_prompt();
    assert!(effective.contains("window content"));
    assert!(effective.contains("base prompt"));
}

#[test]
fn effective_prompt_places_window_text_before_the_prompt() {
    let ctx = SystemContext::new("P").with_window_context("W");
    assert_eq!(
        ctx.effective_prompt(),
        "The user is currently looking at a window containing the following text:\n\"\"\"\nW\n\"\"\"\n\nP"
    );
    let empty = SystemContext::new("P").with_window_context("");
    assert_eq!(empty.effective_prompt(), "P");
}

#[test]
fn test_polish_result_new() {
    let result = PolishResult::new("polished text".to_string(), PolishEngineType::Qwen, 1500);
    assert_eq!(result.text, "polished text");
    assert_eq!(result.engine, PolishEngineType::Qwen);
    assert_eq!(result.total_ms, 1500);
    assert!(result.model_load_ms.is_none());
    assert!(result.inference_ms.is_none());
}

#[test]
fn test_polish_result_with_metrics() {
    let result = PolishResult::with_metrics("polished".to_string(), PolishEngineType::Lfm, 2000, Some(500), Some(1500));
    assert_eq!(result.text, "polished");
    assert_eq!(result.engine, PolishEngineType::Lfm);
    assert_eq!(result.total_ms, 2000);
    assert_eq!(result.model_load_ms, Some(500));
    assert_eq!(result.inference_ms, Some(1500));
}

// ----- the engine manager -----

#[test]
fn test_unified_polish_manager_new() {
    let manager = UnifiedPolishManager::new();
    let engines = manager.available_engines();
    assert_eq!(engines.len(), 3);
    assert!(engines.contains(&PolishEngineType::Qwen));
    assert!(engines.contains(&PolishEngineType::Lfm));
    assert!(engines.contains(&PolishEngineType::Gemma));
}

#[test]
fn test_unified_polish_manager_default() {
    let manager = UnifiedPolishManager::default();
    assert_eq!(manager.available_engines().len(), 3);
}

#[test]
fn test_cloud_polish_engine_type_available() {
    assert!(PolishEngineType::all().contains(&PolishEngineType::Cloud));
}

#[test]
fn test_get_engine_by_model_id_qwen() {
    assert_eq!(UnifiedPolishManager::get_engine_by_model_id("qwen3.5-0.8b"), Some(PolishEngineType::Qwen));
    assert_eq!(UnifiedPolishManager::get_engine_by_model_id("qwen3.5-2b"), Some(PolishEngineType::Qwen));
    assert_eq!(UnifiedPolishManager::get_engine_by_model_id("qwen3-4b"), Some(PolishEngineType::Qwen));
}

#[test]
fn test_get_engine_by_model_id_lfm() {
    assert_eq!(UnifiedPolishManager::get_engine_by_model_id("lfm2.5-1.2b"), Some(PolishEngineType::Lfm));
    assert_eq!(UnifiedPolishManager::get_engine_by_model_id("lfm2-2.6b"), Some(PolishEngineType::Lfm));
}

#[test]
fn test_get_engine_by_model_id_unknown() {
    assert_eq!(UnifiedPolishManager::get_engine_by_model_id("gpt-4"), None);
    assert_eq!(UnifiedPolishManager::get_engine_by_model_id("unknown"), None);
}

#[test]
fn test_get_engine_by_model_id_gemma() {
    assert_eq!(UnifiedPolishManager::get_engine_by_model_id("gemma-2b-it"), Some(PolishEngineType::Gemma));
    assert_eq!(UnifiedPolishManager::get_engine_by_model_id("gemma-4-e2b"), Some(PolishEngineType::Gemma));
}

#[test]
fn test_get_model_filename_qwen() {
    let manager = UnifiedPolishManager::new();
    assert_eq!(
        manager.get_model_filename(PolishEngineType::Qwen, "qwen3.5-0.8b"),
        Some("Qwen3.5-0.8B-Q5_K_M.gguf".to_string())
    );
}

#[test]
fn test_get_model_filename_lfm() {
    let manager = UnifiedPolishManager::new();
    assert_eq!(
        manager.get_model_filename(PolishEngineType::Lfm, "lfm2.5-1.2b"),
        Some("LFM2.5-1.2B-Instruct-Q4_K_M.gguf".to_string())
    );
}

#[test]
fn test_get_model_filename_not_found() {
    let manager = UnifiedPolishManager::new();
    assert_eq!(manager.get_model_filename(PolishEngineType::Qwen, "nonexistent"), None);
}

#[test]
fn test_get_model_filename_gemma() {
    let manager = UnifiedPolishManager::new();
    assert_eq!(
        manager.get_model_filename(PolishEngineType::Gemma, "gemma-2b-it"),
        Some("gemma-2b-it.Q4_K_M.gguf".to_string())
    );
    assert_eq!(
        manager.get_model_filename(PolishEngineType::Gemma, "gemma-4-e2b"),
        Some("gemma-2b-it.Q4_K_M.gguf".to_string())
    );
}

#[test]
fn test_clear_cache() {
    let mut manager = UnifiedPolishManager::new();
    manager.clear_cache();
}

#[test]
fn test_clear_engine_cache() {
    let mut manager = UnifiedPolishManager::new();
    manager.clear_engine_cache(PolishEngineType::Qwen, None);
    manager.clear_engine_cache(PolishEngineType::Qwen, Some("model.gguf"));
}

#[test]
fn test_polish_model_info() {
    let info = PolishModelInfo {
        id: "test-id".to_string(),
        display_name: "Test Model".to_string(),
        size_display: "~1GB".to_string(),
        engine_type: PolishEngineType::Qwen,
    };
    assert_eq!(info.id, "test-id");
    assert_eq!(info.display_name, "Test Model");
    assert_eq!(info.size_display, "~1GB");
    assert_eq!(info.engine_type, PolishEngineType::Qwen);
}

#[test]
fn test_get_all_polish_models() {
    let models = get_all_polish_models();
    assert!(!models.is_empty());
    assert!(models.len() >= 6);
    assert!(models.iter().any(|m| m.engine_type == PolishEngineType::Qwen));
    assert!(models.iter().any(|m| m.engine_type == PolishEngineType::Lfm));
    assert!(models.iter().any(|m| m.engine_type == PolishEngineType::Gemma));
    for model in models {
        assert!(!model.id.is_empty());
        assert!(!model.display_name.is_empty());
        assert!(!model.size_display.is_empty());
    }
}

#[test]
fn test_polish_engine_instance_new_invalid_path() {
    let result = PolishEngineInstance::new(PolishEngineType::Qwen, "nonexistent-model.gguf", false);
    assert!(result.is_err());
    assert!(result.unwrap_err().contains("Model file not found"));
}

#[test]
fn loading_then_unloading_a_model_leaves_nothing_cached() {
    let mut manager = UnifiedPolishManager::new();
    assert!(manager.load_model(PolishEngineType::Qwen, "qwen3.5-0.8b", true).is_ok());
    manager.unload_model(PolishEngineType::Qwen, "qwen3.5-0.8b");
    assert_eq!(
        manager.load_model(PolishEngineType::Qwen, "unknown-model", true).unwrap_err(),
        "Model not found: unknown-model"
    );
    assert_eq!(
        manager.load_model(PolishEngineType::Qwen, "qwen3.5-0.8b", false).unwrap_err(),
        "Model file not found: Qwen3.5-0.8B-Q5_K_M.gguf"
    );
}

#[test]
fn downloaded_models_are_found_among_present_files() {
    let manager = UnifiedPolishManager::new();
    let present = vec!["Qwen3.5-0.8B-Q5_K_M.gguf".to_string()];
    assert!(manager.is_model_downloaded(PolishEngineType::Qwen, "qwen3.5-0.8b", &present));
    assert!(!manager.is_model_downloaded(PolishEngineType::Lfm, "lfm2.5-1.2b", &present));
    assert!(!manager.is_model_downloaded(PolishEngineType::Cloud, "qwen3.5-0.8b", &present));
}

#[test]
fn cloud_requests_carry_their_headers_in_order() {
    let anthropic = CloudPolishEngine::new(CloudProviderConfig {
        provider_type: "anthropic".to_string(),
        api_key: "k".to_string(),
        base_url: String::new(),
        model: "m".to_string(),
        enable_thinking: false,
    });
    let call = anthropic.prepare(&PolishRequest::new("t", "p", "en")).unwrap();
    assert_eq!(call.max_tokens, CLOUD_MAX_TOKENS);
    assert_eq!(
        call.request_headers(),
        vec![
            ("x-api-key".to_string(), "k".to_string()),
            ("anthropic-version".to_string(), "2023-06-01".to_string()),
            ("Content-Type".to_string(), "application/json".to_string()),
            ("User-Agent".to_string(), APP_USER_AGENT.to_string()),
        ]
    );
    let coding = CloudPolishEngine::new(CloudProviderConfig {
        provider_type: "openai".to_string(),
        api_key: "k".to_string(),
        base_url: "https://coding.dashscope.aliyuncs.com/v1".to_string(),
        model: "m".to_string(),
        enable_thinking: true,
    });
    let call = coding.prepare(&PolishRequest::new("t", "p", "en")).unwrap();
    assert_eq!(
        call.request_headers(),
        vec![
            ("Authorization".to_string(), "Bearer k".to_string()),
            ("Content-Type".to_string(), "application/json".to_string()),
            ("User-Agent".to_string(), "opencode/1.0.0".to_string()),
        ]
    );
}

#[test]
fn cloud_answers_yield_their_first_text() {
    let a = AnthropicResponse {
        content: vec![
            AnthropicContentBlock { text: Some("first".to_string()) },
            AnthropicContentBlock { text: Some("second".to_string()) },
        ],
    };
    assert_eq!(anthropic_response_text(&a), "first");
    assert_eq!(anthropic_response_text(&AnthropicResponse { content: vec![AnthropicContentBlock { text: None }] }), "");
    assert_eq!(anthropic_response_text(&AnthropicResponse { content: vec![] }), "");
    let o = OpenAiResponse {
        choices: vec![
            OpenAiChoice { message: OpenAiMessage { content: "one".to_string() } },
            OpenAiChoice { message: OpenAiMessage { content: "two".to_string() } },
        ],
    };
    assert_eq!(openai_response_text(&o), "one");
    assert_eq!(openai_response_text(&OpenAiResponse { choices: vec![] }), "");
}
