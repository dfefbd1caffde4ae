use ariatype::shortcut::{
    cancel_hotkey_release_unregister_owner, capture_cancel_hotkey_release_owner, captured_hotkey_profile,
    delete_custom_profile, plan_custom_profile_creation, plan_profile_update, primary_shortcut_action,
    primary_shortcut_context, should_unregister_cancel_hotkeys, update_profile_in_map, validate_hotkey_uniqueness,
    validate_profile_constraints, validate_profile_key, PrimaryShortcutAction, PrimaryShortcutContext,
    ShortcutAction, ShortcutProfile, ShortcutProfilesMap, ShortcutRecordingMode, ShortcutRegistration,
    ShortcutState, ShortcutTriggerMode,
};

#[test]
fn primary_shortcut_ignores_trigger_during_capture() {
    let context = PrimaryShortcutContext {
        capture_active: true,
        is_recording: false,
        recording_mode: ShortcutRecordingMode::Toggle,
    };
    assert_eq!(primary_shortcut_action(context, ShortcutState::Pressed), PrimaryShortcutAction::Ignore);
}

#[test]
fn primary_shortcut_hold_mode_starts_on_press_and_stops_on_release() {
    let idle_context = PrimaryShortcutContext {
        capture_active: false,
        is_recording: false,
        recording_mode: ShortcutRecordingMode::Hold,
    };
    let recording_context = PrimaryShortcutContext {
        capture_active: false,
        is_recording: true,
        recording_mode: ShortcutRecordingMode::Hold,
    };
    assert_eq!(primary_shortcut_action(idle_context, ShortcutState::Pressed), PrimaryShortcutAction::StartRecording);
    assert_eq!(
        primary_shortcut_action(recording_context, ShortcutState::Released),
        PrimaryShortcutAction::StopRecording
    );
    assert_eq!(primary_shortcut_action(idle_context, ShortcutState::Released), PrimaryShortcutAction::Ignore);
}

#[test]
fn primary_shortcut_toggle_mode_toggles_only_on_press() {
    let idle_context = PrimaryShortcutContext {
        capture_active: false,
        is_recording: false,
        recording_mode: ShortcutRecordingMode::Toggle,
    };
    let recording_context = PrimaryShortcutContext {
        capture_active: false,
        is_recording: true,
        recording_mode: ShortcutRecordingMode::Toggle,
    };
    assert_eq!(primary_shortcut_action(idle_context, ShortcutState::Pressed), PrimaryShortcutAction::StartRecording);
    assert_eq!(
        primary_shortcut_action(recording_context, ShortcutState::Pressed),
        PrimaryShortcutAction::StopRecording
    );
    assert_eq!(primary_shortcut_action(recording_context, ShortcutState::Released), PrimaryShortcutAction::Ignore);
}

#[test]
fn cancel_owner_is_captured_only_for_active_session() {
    assert_eq!(capture_cancel_hotkey_release_owner(true, false, 8), Some(8));
    assert_eq!(capture_cancel_hotkey_release_owner(false, true, 8), Some(8));
    assert_eq!(capture_cancel_hotkey_release_owner(false, false, 8), None);
}

#[test]
fn cancel_owner_is_released_only_when_session_is_idle() {
    assert_eq!(cancel_hotkey_release_unregister_owner(false, false, Some(7)), Some(7));
    assert_eq!(cancel_hotkey_release_unregister_owner(true, false, Some(7)), None);
    assert_eq!(cancel_hotkey_release_unregister_owner(false, true, Some(7)), None);
    assert_eq!(cancel_hotkey_release_unregister_owner(false, false, None), None);
}

#[test]
fn cancel_unregister_ignores_stale_owner() {
    assert!(!should_unregister_cancel_hotkeys(Some(2), Some(1)));
    assert!(should_unregister_cancel_hotkeys(Some(2), Some(2)));
    assert!(should_unregister_cancel_hotkeys(Some(2), None));
}

#[test]
fn recording_mode_setting_is_hold_only_for_hold() {
    assert_eq!(primary_shortcut_context(false, "HOLD", false).recording_mode, ShortcutRecordingMode::Hold);
    assert_eq!(primary_shortcut_context(false, "toggle", false).recording_mode, ShortcutRecordingMode::Toggle);
    assert_eq!(primary_shortcut_context(true, "anything", true).recording_mode, ShortcutRecordingMode::Toggle);
    assert!(primary_shortcut_context(true, "hold", true).capture_active);
}

fn profile(hotkey: &str, mode: ShortcutTriggerMode, template: Option<&str>) -> ShortcutProfile {
    ShortcutProfile {
        hotkey: hotkey.to_string(),
        trigger_mode: mode,
        action: ShortcutAction::Record { polish_template_id: template.map(|t| t.to_string()) },
    }
}

fn template_of(p: &ShortcutProfile) -> Option<String> {
    match &p.action {
        ShortcutAction::Record { polish_template_id } => polish_template_id.clone(),
    }
}

#[test]
fn default_profiles_dictate_on_shift_space() {
    let m = ShortcutProfilesMap::default_profiles();
    assert_eq!(m.dictate.hotkey, "Shift+Space");
    assert_eq!(m.dictate.trigger_mode, ShortcutTriggerMode::Hold);
    assert_eq!(template_of(&m.dictate), None);
    assert_eq!(m.riff.hotkey, "");
    assert_eq!(m.riff.trigger_mode, ShortcutTriggerMode::Toggle);
    assert_eq!(template_of(&m.riff), Some("filler".to_string()));
    assert!(m.custom.is_none());
}

#[test]
fn profile_keys_are_dictate_chat_and_custom() {
    assert!(validate_profile_key("dictate").is_ok());
    assert!(validate_profile_key("chat").is_ok());
    assert!(validate_profile_key("custom").is_ok());
    assert_eq!(validate_profile_key("riff").unwrap_err(), "unknown_profile_key: riff");
}

#[test]
fn profile_template_rules_are_enforced() {
    assert_eq!(
        validate_profile_constraints("dictate", &profile("a", ShortcutTriggerMode::Hold, Some("x"))).unwrap_err(),
        "cannot_update_dictate_template"
    );
    assert_eq!(
        validate_profile_constraints("chat", &profile("a", ShortcutTriggerMode::Hold, None)).unwrap_err(),
        "chat_template_cannot_be_null"
    );
    assert!(validate_profile_constraints("custom", &profile("a", ShortcutTriggerMode::Hold, None)).is_ok());
    assert_eq!(
        validate_profile_constraints("other", &profile("a", ShortcutTriggerMode::Hold, None)).unwrap_err(),
        "unknown_profile_key: other"
    );
}

#[test]
fn hotkeys_must_be_unique_across_profiles() {
    let mut m = ShortcutProfilesMap::default_profiles();
    m.riff.hotkey = "Cmd+R".to_string();
    m.custom = Some(profile("Cmd+K", ShortcutTriggerMode::Toggle, None));
    assert_eq!(validate_hotkey_uniqueness(&m, "chat", "Shift+Space").unwrap_err(), "hotkey_conflict:dictate");
    assert_eq!(validate_hotkey_uniqueness(&m, "dictate", "Cmd+R").unwrap_err(), "hotkey_conflict:chat");
    assert_eq!(validate_hotkey_uniqueness(&m, "dictate", "Cmd+K").unwrap_err(), "hotkey_conflict:custom");
    assert!(validate_hotkey_uniqueness(&m, "dictate", "Shift+Space").is_ok());
    assert!(validate_hotkey_uniqueness(&m, "dictate", "").is_ok());
}

#[test]
fn chat_key_updates_the_riff_profile() {
    let mut m = ShortcutProfilesMap::default_profiles();
    update_profile_in_map(&mut m, "chat", profile("Cmd+J", ShortcutTriggerMode::Hold, Some("formal")));
    assert_eq!(m.riff.hotkey, "Cmd+J");
    assert_eq!(m.dictate.hotkey, "Shift+Space");
    update_profile_in_map(&mut m, "unknown", profile("X", ShortcutTriggerMode::Hold, None));
    assert_eq!(m.riff.hotkey, "Cmd+J");
    assert!(m.custom.is_none());
}

#[test]
fn profile_updates_register_or_remove_hotkeys() {
    let m = ShortcutProfilesMap::default_profiles();
    assert_eq!(
        plan_profile_update(&m, "chat", &profile("Cmd+J", ShortcutTriggerMode::Toggle, Some("chat"))),
        Ok(ShortcutRegistration::Register)
    );
    assert_eq!(
        plan_profile_update(&m, "chat", &profile("", ShortcutTriggerMode::Toggle, Some("chat"))),
        Ok(ShortcutRegistration::Unregister)
    );
    assert_eq!(
        plan_profile_update(&m, "chat", &profile("Shift+Space", ShortcutTriggerMode::Toggle, Some("chat"))),
        Err("hotkey_conflict:dictate".to_string())
    );
}

#[test]
fn only_one_custom_profile_exists() {
    let mut m = ShortcutProfilesMap::default_profiles();
    assert_eq!(plan_custom_profile_creation(&m, &profile("Cmd+K", ShortcutTriggerMode::Toggle, None)), Ok(true));
    assert_eq!(plan_custom_profile_creation(&m, &profile("", ShortcutTriggerMode::Toggle, None)), Ok(false));
    m.custom = Some(profile("Cmd+K", ShortcutTriggerMode::Toggle, None));
    assert_eq!(
        plan_custom_profile_creation(&m, &profile("Cmd+L", ShortcutTriggerMode::Toggle, None)),
        Err("custom_profile_already_exists".to_string())
    );
    assert!(delete_custom_profile(&mut m).is_ok());
    assert!(m.custom.is_none());
    assert_eq!(delete_custom_profile(&mut m), Err("custom_profile_not_found".to_string()));
}

#[test]
fn captured_hotkey_keeps_the_profile_mode_and_template() {
    let m = ShortcutProfilesMap::default_profiles();
    let p = captured_hotkey_profile(&m, "chat", "Cmd+J".to_string()).unwrap();
    assert_eq!(p.hotkey, "Cmd+J");
    assert_eq!(p.trigger_mode, ShortcutTriggerMode::Toggle);
    assert_eq!(template_of(&p), Some("filler".to_string()));
    let d = captured_hotkey_profile(&m, "dictate", "Cmd+D".to_string()).unwrap();
    assert_eq!(d.trigger_mode, ShortcutTriggerMode::Hold);
    assert_eq!(template_of(&d), None);
    assert_eq!(
        captured_hotkey_profile(&m, "riff", "Cmd+D".to_string()).unwrap_err(),
        "invalid_profile_key: riff"
    );
    assert_eq!(
        captured_hotkey_profile(&m, "chat", "Shift+Space".to_string()).unwrap_err(),
        "hotkey_conflict:dictate"
    );
}
