use ariatype::settings::app_settings::AppSettings;
use ariatype::settings::configs::{CloudProviderConfig, CloudSttConfig};
use ariatype::settings::migration::{
    migrate_cloud_polish_config, migrate_cloud_stt_config, migrate_to_profiles_map, profile_trigger_mode,
    resolve_stt_provider_type, LegacyCloudProviderConfig, LegacyCloudSttConfig, LegacyProfileItem,
    ProfileEntryShape, ProfilesMigration, StoredProfiles,
};
use ariatype::settings::update::{apply_setting, SettingValue};
use ariatype::shortcut::{ShortcutAction, ShortcutProfile, ShortcutTriggerMode};

fn polish_config(api_key: &str, model: &str) -> CloudProviderConfig {
    CloudProviderConfig {
        enabled: false,
        provider_type: String::new(),
        api_key: api_key.to_string(),
        base_url: "https://example.com".to_string(),
        model: model.to_string(),
        enable_thinking: true,
    }
}

fn str_value(s: &str) -> SettingValue {
    SettingValue {
        as_str: Some(s.to_string()),
        as_bool: None,
        as_u64: None,
        profiles: None,
        stt_configs: None,
        polish_configs: None,
    }
}

fn bool_value(b: bool) -> SettingValue {
    SettingValue { as_str: None, as_bool: Some(b), as_u64: None, profiles: None, stt_configs: None, polish_configs: None }
}

fn template_of(p: &ShortcutProfile) -> Option<String> {
    match &p.action {
        ShortcutAction::Record { polish_template_id } => polish_template_id.clone(),
    }
}

#[test]
fn test_is_streaming_stt_active_accepts_aliyun_stream_provider_id() {
    let mut settings = AppSettings::default();
    settings.cloud_stt_enabled = true;
    settings.active_cloud_stt_provider = "aliyun-stream".to_string();
    assert!(settings.is_streaming_stt_active());
}

#[test]
fn streaming_stt_needs_the_switch_and_a_streaming_provider() {
    let mut settings = AppSettings::default();
    assert!(!settings.is_streaming_stt_active());
    settings.cloud_stt_enabled = true;
    assert!(settings.is_streaming_stt_active());
    assert!(settings.is_volcengine_streaming_active());
    settings.active_cloud_stt_provider = "openai-whisper".to_string();
    assert!(!settings.is_streaming_stt_active());
    settings.active_cloud_stt_provider = "elevenlabs".to_string();
    assert!(settings.is_streaming_stt_active());
}

#[test]
fn default_settings_match_a_fresh_installation() {
    let s = AppSettings::default();
    assert_eq!(s.recording_mode, "hold");
    assert_eq!(s.model, "whisper-base");
    assert_eq!(s.stt_engine, "whisper");
    assert_eq!(s.pill_position, "bottom-center");
    assert_eq!(s.idle_unload_minutes, 5);
    assert_eq!(s.active_cloud_polish_provider, "anthropic");
    assert_eq!(s.get_dictate_hotkey(), "Shift+Space");
    assert_eq!(s.get_riff_hotkey(), "");
    assert_eq!(s.get_custom_hotkey(), None);
    assert!(s.beep_on_record);
    assert!(s.gpu_acceleration);
}

#[test]
fn active_stt_config_reads_back_the_stored_one() {
    let mut settings = AppSettings::default();
    settings.stt_engine_language = "ja-JP".to_string();
    settings.cloud_stt_enabled = true;
    settings.set_cloud_stt_config(
        "volcengine-streaming".to_string(),
        CloudSttConfig {
            enabled: false,
            provider_type: "x".to_string(),
            api_key: "test-key".to_string(),
            app_id: "test-app".to_string(),
            base_url: "https://example.com".to_string(),
            model: "bigmodel_nostream".to_string(),
            language: "ja-JP".to_string(),
        },
    );
    let c = settings.get_active_cloud_stt_config();
    assert!(c.enabled);
    assert_eq!(c.provider_type, "volcengine-streaming");
    assert_eq!(c.api_key, "test-key");
    assert_eq!(c.app_id, "test-app");
    assert_eq!(c.model, "bigmodel_nostream");
    settings.active_cloud_stt_provider = "other".to_string();
    let blank = settings.get_active_cloud_stt_config();
    assert_eq!(blank.provider_type, "other");
    assert_eq!(blank.api_key, "");
}

#[test]
fn storing_a_provider_config_twice_keeps_one_entry() {
    let mut settings = AppSettings::default();
    settings.set_cloud_polish_config("openai".to_string(), polish_config("a", "m1"));
    settings.set_cloud_polish_config("anthropic".to_string(), polish_config("b", "m2"));
    settings.set_cloud_polish_config("openai".to_string(), polish_config("c", "m3"));
    assert_eq!(settings.cloud_polish_configs.len(), 2);
    settings.active_cloud_polish_provider = "openai".to_string();
    assert_eq!(settings.get_active_cloud_polish_config().api_key, "c");
}

#[test]
fn polish_config_resolution_order() {
    let mut settings = AppSettings::default();
    let (provider, cfg) = settings.resolve_polish_config(None, None);
    assert_eq!(provider, None);
    assert_eq!(cfg.api_key, "");
    settings.set_cloud_polish_config("anthropic".to_string(), polish_config("key", "sonnet"));
    settings.set_cloud_polish_config("openai".to_string(), polish_config("key2", "gpt"));
    settings.set_cloud_polish_config("broken".to_string(), polish_config("", "gpt"));
    let (provider, cfg) = settings.resolve_polish_config(None, None);
    assert_eq!(provider, Some("anthropic".to_string()));
    assert_eq!(cfg.model, "sonnet");
    let (provider, cfg) = settings.resolve_polish_config(Some("openai"), Some("gpt-4o"));
    assert_eq!(provider, Some("openai".to_string()));
    assert!(cfg.enabled);
    assert_eq!(cfg.provider_type, "openai");
    assert_eq!(cfg.model, "gpt-4o");
    let (_, cfg) = settings.resolve_polish_config(Some("openai"), Some(""));
    assert_eq!(cfg.model, "gpt");
    let (provider, _) = settings.resolve_polish_config(Some("broken"), None);
    assert_eq!(provider, Some("anthropic".to_string()));
}

#[test]
fn hotkey_setters_change_only_their_profile() {
    let mut s = AppSettings::default();
    s.set_dictate_hotkey("Cmd+D");
    s.set_riff_hotkey("Cmd+R");
    assert_eq!(s.get_dictate_hotkey(), "Cmd+D");
    assert_eq!(s.get_riff_hotkey(), "Cmd+R");
    assert_eq!(s.shortcut_profiles.dictate.trigger_mode, ShortcutTriggerMode::Hold);
}

#[test]
fn unknown_setting_keys_are_refused() {
    let mut s = AppSettings::default();
    let err = apply_setting(&mut s, "no_such_key", str_value("x"), None).unwrap_err();
    assert_eq!(err, "Unknown setting key: no_such_key");
    assert_eq!(s.model, "whisper-base");
}

#[test]
fn changing_the_model_clears_the_cache_and_preloads_it() {
    let mut s = AppSettings::default();
    let e = apply_setting(&mut s, "model", str_value("sense-voice"), Some("sensevoice".to_string())).unwrap();
    assert!(e.should_clear_cache);
    assert_eq!(e.model_to_preload, Some("sense-voice".to_string()));
    assert_eq!(s.model, "sense-voice");
    assert_eq!(s.stt_engine, "sensevoice");
    let again = apply_setting(&mut s, "model", str_value("sense-voice"), Some("other".to_string())).unwrap();
    assert!(!again.should_clear_cache);
    assert_eq!(s.stt_engine, "sensevoice");
}

#[test]
fn setting_values_of_the_wrong_kind_change_nothing() {
    let mut s = AppSettings::default();
    let e = apply_setting(&mut s, "auto_start", str_value("yes"), None).unwrap();
    assert!(!s.auto_start);
    assert!(e.beep_change.is_none());
    apply_setting(&mut s, "auto_start", bool_value(true), None).unwrap();
    assert!(s.auto_start);
}

#[test]
fn setting_effects_follow_the_changed_values() {
    let mut s = AppSettings::default();
    let e = apply_setting(&mut s, "beep_on_record", bool_value(false), None).unwrap();
    assert_eq!(e.beep_change, Some(false));
    let e = apply_setting(&mut s, "beep_on_record", bool_value(false), None).unwrap();
    assert_eq!(e.beep_change, None);
    let e = apply_setting(&mut s, "gpu_acceleration", bool_value(false), None).unwrap();
    assert_eq!(e.gpu_provider_change, Some(false));
    assert!(e.should_clear_cache);
    let e = apply_setting(&mut s, "model_resident", bool_value(false), None).unwrap();
    assert!(e.should_clear_cache);
    assert_eq!(e.model_to_preload, None);
    let e = apply_setting(&mut s, "model_resident", bool_value(true), None).unwrap();
    assert_eq!(e.model_to_preload, Some("whisper-base".to_string()));
    let e = apply_setting(&mut s, "pill_position", str_value("top-center"), None).unwrap();
    assert_eq!(e.preset_to_apply, Some("top-center".to_string()));
    let e = apply_setting(&mut s, "pill_position", bool_value(true), None).unwrap();
    assert_eq!(e.preset_to_apply, Some("top-center".to_string()));
    let e = apply_setting(&mut s, "hotkey", str_value("Cmd+H"), None).unwrap();
    assert_eq!(e.hotkey_to_register, Some("Cmd+H".to_string()));
    assert_eq!(s.get_dictate_hotkey(), "Cmd+H");
    let e = apply_setting(&mut s, "stt_engine_language", str_value("en"), None).unwrap();
    assert!(e.engine_language_changed);
    let mut n = str_value("x");
    n.as_str = None;
    n.as_u64 = Some(30);
    apply_setting(&mut s, "idle_unload_minutes", n, None).unwrap();
    assert_eq!(s.idle_unload_minutes, 30);
}

#[test]
fn trigger_modes_follow_the_former_recording_mode() {
    assert_eq!(profile_trigger_mode("dictate", Some("TOGGLE")), ShortcutTriggerMode::Toggle);
    assert_eq!(profile_trigger_mode("riff", Some("hold")), ShortcutTriggerMode::Hold);
    assert_eq!(profile_trigger_mode("dictate", None), ShortcutTriggerMode::Hold);
    assert_eq!(profile_trigger_mode("riff", Some("other")), ShortcutTriggerMode::Toggle);
    assert_eq!(profile_trigger_mode("custom", None), ShortcutTriggerMode::Toggle);
    assert_eq!(profile_trigger_mode("x", None), ShortcutTriggerMode::Hold);
}

#[test]
fn migrate_from_legacy_hotkey_copies_global_recording_mode_into_profiles() {
    let (plan, migrated) = migrate_to_profiles_map(StoredProfiles::Absent { legacy_hotkey: Some("Shift+Space".to_string()) }, Some("toggle"));
    assert!(migrated);
    match plan {
        ProfilesMigration::Replace(m) => {
            assert_eq!(m.dictate.trigger_mode, ShortcutTriggerMode::Toggle);
            assert_eq!(m.riff.trigger_mode, ShortcutTriggerMode::Toggle);
            assert_eq!(m.dictate.hotkey, "Shift+Space");
        },
        other => panic!("expected replacement, got {:?}", other),
    }
}

#[test]
fn migrate_array_profiles_copies_global_recording_mode_into_existing_profiles() {
    let items = vec![
        LegacyProfileItem { hotkey: Some("Cmd+Slash".to_string()), polish_template_id: None },
        LegacyProfileItem { hotkey: Some("Opt+Slash".to_string()), polish_template_id: Some("filler".to_string()) },
        LegacyProfileItem { hotkey: Some("Cmd+Alt+Slash".to_string()), polish_template_id: Some("formal".to_string()) },
    ];
    let (plan, migrated) = migrate_to_profiles_map(StoredProfiles::List(items), Some("hold"));
    assert!(migrated);
    match plan {
        ProfilesMigration::Replace(m) => {
            assert_eq!(m.dictate.trigger_mode, ShortcutTriggerMode::Hold);
            assert_eq!(m.riff.trigger_mode, ShortcutTriggerMode::Hold);
            let custom = m.custom.unwrap();
            assert_eq!(custom.trigger_mode, ShortcutTriggerMode::Hold);
            assert_eq!(custom.hotkey, "Cmd+Alt+Slash");
            assert_eq!(template_of(&custom), Some("formal".to_string()));
            assert_eq!(m.dictate.hotkey, "Cmd+Slash");
        },
        other => panic!("expected replacement, got {:?}", other),
    }
}

#[test]
fn short_profile_lists_get_default_profiles() {
    let (plan, _) = migrate_to_profiles_map(
        StoredProfiles::List(vec![LegacyProfileItem { hotkey: None, polish_template_id: None }]),
        None,
    );
    match plan {
        ProfilesMigration::Replace(m) => {
            assert_eq!(m.dictate.hotkey, "");
            assert_eq!(m.riff.hotkey, "");
            assert_eq!(m.riff.trigger_mode, ShortcutTriggerMode::Toggle);
            assert_eq!(template_of(&m.riff), Some("filler".to_string()));
            assert!(m.custom.is_none());
        },
        other => panic!("expected replacement, got {:?}", other),
    }
}

#[test]
fn keyed_profiles_only_get_missing_trigger_modes() {
    let (plan, migrated) = migrate_to_profiles_map(
        StoredProfiles::Keyed {
            dictate: ProfileEntryShape::Object { has_trigger_mode: true },
            riff: ProfileEntryShape::Object { has_trigger_mode: false },
            custom: ProfileEntryShape::Missing,
        },
        None,
    );
    assert!(migrated);
    match plan {
        ProfilesMigration::AddTriggerModes(v) => assert_eq!(v, vec![("riff", ShortcutTriggerMode::Toggle)]),
        other => panic!("expected additions, got {:?}", other),
    }
    let (_, migrated) = migrate_to_profiles_map(
        StoredProfiles::Keyed {
            dictate: ProfileEntryShape::NotObject,
            riff: ProfileEntryShape::Object { has_trigger_mode: true },
            custom: ProfileEntryShape::Missing,
        },
        None,
    );
    assert!(!migrated);
}

#[test]
fn former_cloud_configs_move_under_their_provider() {
    let legacy = LegacyCloudSttConfig {
        enabled: true,
        provider_type: "volcengine".to_string(),
        api_key: "k".to_string(),
        app_id: "a".to_string(),
        base_url: String::new(),
        model: "m".to_string(),
        language: "zh".to_string(),
    };
    assert_eq!(resolve_stt_provider_type(&legacy), "volcengine-streaming");
    let (enabled, provider, config) = migrate_cloud_stt_config(legacy);
    assert!(enabled);
    assert_eq!(provider, "volcengine-streaming");
    assert_eq!(config.provider_type, "volcengine-streaming");
    assert_eq!(config.app_id, "a");
    let polish = LegacyCloudProviderConfig {
        enabled: false,
        provider_type: String::new(),
        api_key: "k".to_string(),
        base_url: String::new(),
        model: "m".to_string(),
        enable_thinking: true,
    };
    let (enabled, provider, config) = migrate_cloud_polish_config(polish);
    assert!(!enabled);
    assert_eq!(provider, "anthropic");
    assert!(config.enable_thinking);
}

use ariatype::settings::domains::{get_subdomains_for_domain, normalize_pill_background_color};

#[test]
fn normalize_pill_background_color_accepts_only_hex_rgb_values() {
    assert_eq!(normalize_pill_background_color(" #AABBCC "), Some("#aabbcc".to_string()));
    assert_eq!(normalize_pill_background_color("#abc"), None);
    assert_eq!(normalize_pill_background_color("red"), None);
    assert_eq!(normalize_pill_background_color("#zzzzzz"), None);
}

#[test]
fn subdomains_are_listed_per_domain() {
    assert_eq!(get_subdomains_for_domain("it"), vec!["general", "security", "hardware", "software", "web", "ai"]);
    assert_eq!(get_subdomains_for_domain("legal").len(), 5);
    assert_eq!(get_subdomains_for_domain("medical")[4], "neurology");
    assert!(get_subdomains_for_domain("cooking").is_empty());
}

#[test]
fn fresh_profiles_take_the_former_hotkey() {
    match migrate_to_profiles_map(StoredProfiles::Absent { legacy_hotkey: Some("Ctrl+Alt+D".to_string()) }, None).0 {
        ProfilesMigration::Replace(m) => {
            assert_eq!(m.dictate.hotkey, "Ctrl+Alt+D");
            assert_eq!(m.dictate.trigger_mode, ShortcutTriggerMode::Hold);
            assert_eq!(m.riff.hotkey, "");
        },
        other => panic!("expected replacement, got {:?}", other),
    }
    match migrate_to_profiles_map(StoredProfiles::Absent { legacy_hotkey: None }, None).0 {
        ProfilesMigration::Replace(m) => assert_eq!(m.dictate.hotkey, "Shift+Space"),
        other => panic!("expected replacement, got {:?}", other),
    }
}
