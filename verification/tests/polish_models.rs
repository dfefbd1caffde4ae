use ariatype::polish::common::{chatml_prompt, detect_language, language_name, local_polish_prompt, EngineConfig};
use ariatype::polish::gemma::{self, is_gemma_model, GemmaModelDef};
use ariatype::polish::lfm::{self, is_lfm_model, LfmModelDef};
use ariatype::polish::qwen::{self, is_qwen_model, QwenModelDef};

#[test]
fn test_language_name_known_codes() {
    assert_eq!(language_name("en"), "English");
    assert_eq!(language_name("zh"), "Chinese");
    assert_eq!(language_name("ja"), "Japanese");
    assert_eq!(language_name("ko"), "Korean");
    assert_eq!(language_name("fr"), "French");
    assert_eq!(language_name("de"), "German");
    assert_eq!(language_name("es"), "Spanish");
    assert_eq!(language_name("pt"), "Portuguese");
    assert_eq!(language_name("ru"), "Russian");
    assert_eq!(language_name("ar"), "Arabic");
}

#[test]
fn test_language_name_unknown_code() {
    assert_eq!(language_name("unknown"), "");
    assert_eq!(language_name("xyz"), "");
    assert_eq!(language_name(""), "");
}

#[test]
fn test_detect_language_empty() {
    assert_eq!(detect_language(""), "English");
}

#[test]
fn test_detect_language_english() {
    assert_eq!(detect_language("Hello world"), "English");
    assert_eq!(detect_language("The quick brown fox"), "English");
    assert_eq!(detect_language("Testing 123"), "English");
}

#[test]
fn test_detect_language_chinese() {
    assert_eq!(detect_language("你好世界"), "Chinese");
    assert_eq!(detect_language("这是一个测试"), "Chinese");
    assert_eq!(detect_language("中文测试内容"), "Chinese");
}

#[test]
fn test_detect_language_japanese() {
    assert_eq!(detect_language("こんにちは世界"), "Japanese");
    assert_eq!(detect_language("テストです"), "Japanese");
    assert_eq!(detect_language("ひらがなカタカナ"), "Japanese");
}

#[test]
fn test_detect_language_korean() {
    assert_eq!(detect_language("안녕하세요"), "Korean");
    assert_eq!(detect_language("한글 테스트"), "Korean");
}

#[test]
fn test_detect_language_mixed_mostly_english() {
    assert_eq!(detect_language("Hello 你好"), "English");
    assert_eq!(detect_language("Test 测试 more english words"), "English");
}

#[test]
fn test_detect_language_mixed_mostly_cjk() {
    assert_eq!(detect_language("你好世界 hello"), "Chinese");
}

#[test]
fn detect_language_is_exactly_one_third_cjk_english() {
    // Three characters, one of them CJK: not more than a third.
    assert_eq!(detect_language("a你b"), "English");
    assert_eq!(detect_language("a你"), "Chinese");
}

#[test]
fn test_engine_config_creation() {
    let config = EngineConfig { log_prefix: "test", strip_think_tags: true };
    assert_eq!(config.log_prefix, "test");
    assert!(config.strip_think_tags);

    let config2 = EngineConfig { log_prefix: "another", strip_think_tags: false };
    assert_eq!(config2.log_prefix, "another");
    assert!(!config2.strip_think_tags);
}

// ----- Gemma -----

#[test]
fn test_gemma_model_def_from_id() {
    let model = GemmaModelDef::from_id("gemma-2b-it");
    assert!(model.is_some());
    let model = model.unwrap();
    assert_eq!(model.id, "gemma-2b-it");
    assert_eq!(model.display_name, "Gemma 2B IT");
    assert_eq!(model.filename, "gemma-2b-it.Q4_K_M.gguf");
    assert_eq!(model.repo, "reach-vb/gemma-2b-it-Q4_K_M-GGUF");
    assert_eq!(model.size_display, "~1.52GB");
}

#[test]
fn test_gemma_model_def_from_legacy_id() {
    let model = GemmaModelDef::from_id("gemma-4-e2b");
    assert!(model.is_some());
    let model = model.unwrap();
    assert_eq!(model.id, "gemma-2b-it");
    assert_eq!(model.filename, "gemma-2b-it.Q4_K_M.gguf");
}

#[test]
fn test_gemma_model_def_from_id_not_found() {
    assert!(GemmaModelDef::from_id("nonexistent").is_none());
}

#[test]
fn test_gemma_model_def_from_filename() {
    let model = GemmaModelDef::from_filename("gemma-2b-it.Q4_K_M.gguf");
    assert!(model.is_some());
    assert_eq!(model.unwrap().id, "gemma-2b-it");
}

#[test]
fn test_gemma_model_def_from_filename_not_found() {
    assert!(GemmaModelDef::from_filename("nonexistent.gguf").is_none());
}

#[test]
fn test_gemma_model_def_urls() {
    let model = GemmaModelDef::from_id("gemma-2b-it").unwrap();
    let urls = model.urls();
    assert!(!urls.is_empty());
    assert!(urls.iter().any(|url| url.contains("gemma-2b-it.Q4_K_M.gguf")));
}

#[test]
fn gemma_test_get_all_models() {
    let models = gemma::get_all_models();
    assert_eq!(models.len(), 1);
    let ids: Vec<&str> = models.iter().map(|m| m.id).collect();
    assert!(ids.contains(&"gemma-2b-it"));
}

#[test]
fn test_is_gemma_model() {
    assert!(is_gemma_model("gemma-2b-it"));
    assert!(is_gemma_model("gemma-4-e2b"));
    assert!(is_gemma_model("gemma-anything"));
    assert!(!is_gemma_model("qwen3.5-0.8b"));
    assert!(!is_gemma_model("lfm2.5-1.2b"));
    assert!(!is_gemma_model(""));
}

#[test]
fn gemma_test_all_models_have_valid_fields() {
    for model in gemma::get_all_models() {
        assert!(!model.id.is_empty());
        assert!(!model.repo.is_empty());
        assert!(!model.filename.is_empty());
        assert!(!model.display_name.is_empty());
        assert!(!model.size_display.is_empty());
        assert!(model.filename.ends_with(".gguf"));
    }
}

// ----- LFM -----

#[test]
fn test_lfm_model_def_from_id() {
    let model = LfmModelDef::from_id("lfm2.5-1.2b");
    assert!(model.is_some());
    let model = model.unwrap();
    assert_eq!(model.id, "lfm2.5-1.2b");
    assert_eq!(model.display_name, "LFM2.5-1.2B");
    assert_eq!(model.filename, "LFM2.5-1.2B-Instruct-Q4_K_M.gguf");
    assert_eq!(model.repo, "LiquidAI/LFM2.5-1.2B-Instruct-GGUF");
    assert_eq!(model.size_display, "~770MB");
}

#[test]
fn test_lfm_model_def_from_id_not_found() {
    assert!(LfmModelDef::from_id("nonexistent").is_none());
}

#[test]
fn test_lfm_model_def_from_filename() {
    let model = LfmModelDef::from_filename("LFM2.5-1.2B-Instruct-Q4_K_M.gguf");
    assert!(model.is_some());
    assert_eq!(model.unwrap().id, "lfm2.5-1.2b");
}

#[test]
fn test_lfm_model_def_from_filename_not_found() {
    assert!(LfmModelDef::from_filename("nonexistent.gguf").is_none());
}

#[test]
fn test_lfm_model_def_urls() {
    let model = LfmModelDef::from_id("lfm2.5-1.2b").unwrap();
    let urls = model.urls();
    assert!(!urls.is_empty());
    assert!(urls.iter().any(|url| url.contains("LFM2.5-1.2B-Instruct-Q4_K_M.gguf")));
}

#[test]
fn models_test_get_all_models() {
    let models = lfm::get_all_models();
    assert!(!models.is_empty());
    assert_eq!(models.len(), 2);
    let ids: Vec<&str> = models.iter().map(|m| m.id).collect();
    assert!(ids.contains(&"lfm2.5-1.2b"));
    assert!(ids.contains(&"lfm2-2.6b"));
}

#[test]
fn test_is_lfm_model() {
    assert!(is_lfm_model("lfm2.5-1.2b"));
    assert!(is_lfm_model("lfm2-2.6b"));
    assert!(is_lfm_model("lfm-anything"));
    assert!(!is_lfm_model("qwen3.5-0.8b"));
    assert!(!is_lfm_model("gpt-4"));
    assert!(!is_lfm_model(""));
}

#[test]
fn models_test_all_models_have_valid_fields() {
    for model in lfm::get_all_models() {
        assert!(!model.id.is_empty());
        assert!(!model.repo.is_empty());
        assert!(!model.filename.is_empty());
        assert!(!model.display_name.is_empty());
        assert!(!model.size_display.is_empty());
        assert!(model.filename.ends_with(".gguf"));
    }
}

// ----- Qwen -----

#[test]
fn test_qwen_model_def_from_id() {
    let model = QwenModelDef::from_id("qwen3.5-0.8b");
    assert!(model.is_some());
    let model = model.unwrap();
    assert_eq!(model.id, "qwen3.5-0.8b");
    assert_eq!(model.display_name, "Qwen3.5-0.8B");
    assert_eq!(model.filename, "Qwen3.5-0.8B-Q5_K_M.gguf");
    assert_eq!(model.repo, "unsloth/Qwen3.5-0.8B-GGUF");
    assert_eq!(model.size_display, "~600MB");
}

#[test]
fn test_qwen_model_def_from_id_not_found() {
    assert!(QwenModelDef::from_id("nonexistent").is_none());
}

#[test]
fn test_qwen_model_def_from_filename() {
    let model = QwenModelDef::from_filename("Qwen3.5-0.8B-Q5_K_M.gguf");
    assert!(model.is_some());
    assert_eq!(model.unwrap().id, "qwen3.5-0.8b");
}

#[test]
fn test_qwen_model_def_from_filename_not_found() {
    assert!(QwenModelDef::from_filename("nonexistent.gguf").is_none());
}

#[test]
fn test_qwen_model_def_urls() {
    let model = QwenModelDef::from_id("qwen3.5-0.8b").unwrap();
    let urls = model.urls();
    assert!(!urls.is_empty());
    assert!(urls.iter().any(|url| url.contains("Qwen3.5-0.8B-Q5_K_M.gguf")));
}

#[test]
fn test_get_all_models() {
    let models = qwen::get_all_models();
    assert!(!models.is_empty());
    assert_eq!(models.len(), 3);
    let ids: Vec<&str> = models.iter().map(|m| m.id).collect();
    assert!(ids.contains(&"qwen3.5-0.8b"));
    assert!(ids.contains(&"qwen3.5-2b"));
    assert!(ids.contains(&"qwen3-4b"));
}

#[test]
fn test_is_qwen_model() {
    assert!(is_qwen_model("qwen3.5-0.8b"));
    assert!(is_qwen_model("qwen3.5-2b"));
    assert!(is_qwen_model("qwen3-4b"));
    assert!(is_qwen_model("qwen-anything"));
    assert!(!is_qwen_model("lfm2.5-1.2b"));
    assert!(!is_qwen_model("gpt-4"));
    assert!(!is_qwen_model(""));
}

#[test]
fn test_all_models_have_valid_fields() {
    for model in qwen::get_all_models() {
        assert!(!model.id.is_empty());
        assert!(!model.repo.is_empty());
        assert!(!model.filename.is_empty());
        assert!(!model.display_name.is_empty());
        assert!(!model.size_display.is_empty());
        assert!(model.filename.ends_with(".gguf"));
    }
}

#[test]
fn model_urls_use_both_download_hosts() {
    let model = QwenModelDef::from_id("qwen3.5-0.8b").unwrap();
    let urls = model.urls();
    assert_eq!(urls.len(), 2);
    assert!(urls[0].starts_with("https://huggingface.co/unsloth/Qwen3.5-0.8B-GGUF/"));
    assert!(urls[1].starts_with("https://hf-mirror.com/unsloth/Qwen3.5-0.8B-GGUF/"));
}

#[test]
fn local_polish_needs_the_downloaded_model() {
    assert_eq!(
        local_polish_prompt("hello", "Fix it.", "en", "Default.", false),
        Err("Polish model not downloaded".to_string())
    );
    let prompt = local_polish_prompt("hello", "Fix it.", "en", "Default.", true).unwrap();
    assert_eq!(
        prompt,
        "<|im_start|>system\nFix it.<|im_end|>\n<|im_start|>user\nhello<|im_end|>\n<|im_start|>assistant\n"
    );
    assert_eq!(prompt, chatml_prompt("hello", "Fix it.", "en", "Default."));
}
