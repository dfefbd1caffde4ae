//! Changing one setting by key: the new settings and the work the change
//! calls for.  Storing the settings, notifying the interface and doing that
//! work is left to the caller.
use vstd::prelude::*;

use crate::settings::app_settings::AppSettings;
use crate::settings::configs::{keys_unique, CloudProviderConfig, CloudSttConfig};
use crate::shortcut::{ShortcutProfile, ShortcutProfilesMap};
use crate::text::{append_str, owned, str_eq};

verus! {

/// The keys of the settings that can be changed one at a time.
#[derive(Debug, Clone, Copy, PartialEq, Eq, Structural)]
pub enum SettingKey {
    Hotkey,
    ShortcutProfiles,
    RecordingMode,
    Model,
    SttEngine,
    PillPosition,
    PillIndicatorMode,
    AutoStart,
    GpuAcceleration,
    Language,
    SttEngineLanguage,
    BeepOnRecord,
    AudioDevice,
    PolishSystemPrompt,
    PolishModel,
    ThemeMode,
    SttEngineInitialPrompt,
    ModelResident,
    IdleUnloadMinutes,
    DenoiseMode,
    SttEngineWorkDomain,
    SttEngineWorkDomainPrompt,
    SttEngineWorkSubdomain,
    SttEngineUserGlossary,
    AnalyticsOptIn,
    VadEnabled,
    StayInTray,
    CloudSttEnabled,
    ActiveCloudSttProvider,
    CloudSttConfigs,
    CloudPolishEnabled,
    ActiveCloudPolishProvider,
    CloudPolishConfigs,
    WindowContextEnabled,
}

/// The setting a key names.
pub open spec fn setting_key_of(key: Seq<char>) -> Option<SettingKey> {
    if key == "hotkey"@ {
        Some(SettingKey::Hotkey)
    } else if key == "shortcut_profiles"@ {
        Some(SettingKey::ShortcutProfiles)
    } else if key == "recording_mode"@ {
        Some(SettingKey::RecordingMode)
    } else if key == "model"@ {
        Some(SettingKey::Model)
    } else if key == "stt_engine"@ {
        Some(SettingKey::SttEngine)
    } else if key == "pill_position"@ {
        Some(SettingKey::PillPosition)
    } else if key == "pill_indicator_mode"@ {
        Some(SettingKey::PillIndicatorMode)
    } else if key == "auto_start"@ {
        Some(SettingKey::AutoStart)
    } else if key == "gpu_acceleration"@ {
        Some(SettingKey::GpuAcceleration)
    } else if key == "language"@ {
        Some(SettingKey::Language)
    } else if key == "stt_engine_language"@ {
        Some(SettingKey::SttEngineLanguage)
    } else if key == "beep_on_record"@ {
        Some(SettingKey::BeepOnRecord)
    } else if key == "audio_device"@ {
        Some(SettingKey::AudioDevice)
    } else if key == "polish_system_prompt"@ {
        Some(SettingKey::PolishSystemPrompt)
    } else if key == "polish_model"@ {
        Some(SettingKey::PolishModel)
    } else if key == "theme_mode"@ {
        Some(SettingKey::ThemeMode)
    } else if key == "stt_engine_initial_prompt"@ {
        Some(SettingKey::SttEngineInitialPrompt)
    } else if key == "model_resident"@ {
        Some(SettingKey::ModelResident)
    } else if key == "idle_unload_minutes"@ {
        Some(SettingKey::IdleUnloadMinutes)
    } else if key == "denoise_mode"@ {
        Some(SettingKey::DenoiseMode)
    } else if key == "stt_engine_work_domain"@ {
        Some(SettingKey::SttEngineWorkDomain)
    } else if key == "stt_engine_work_domain_prompt"@ {
        Some(SettingKey::SttEngineWorkDomainPrompt)
    } else if key == "stt_engine_work_subdomain"@ {
        Some(SettingKey::SttEngineWorkSubdomain)
    } else if key == "stt_engine_user_glossary"@ {
        Some(SettingKey::SttEngineUserGlossary)
    } else if key == "analytics_opt_in"@ {
        Some(SettingKey::AnalyticsOptIn)
    } else if key == "vad_enabled"@ {
        Some(SettingKey::VadEnabled)
    } else if key == "stay_in_tray"@ {
        Some(SettingKey::StayInTray)
    } else if key == "cloud_stt_enabled"@ {
        Some(SettingKey::CloudSttEnabled)
    } else if key == "active_cloud_stt_provider"@ {
        Some(SettingKey::ActiveCloudSttProvider)
    } else if key == "cloud_stt_configs"@ {
        Some(SettingKey::CloudSttConfigs)
    } else if key == "cloud_polish_enabled"@ {
        Some(SettingKey::CloudPolishEnabled)
    } else if key == "active_cloud_polish_provider"@ {
        Some(SettingKey::ActiveCloudPolishProvider)
    } else if key == "cloud_polish_configs"@ {
        Some(SettingKey::CloudPolishConfigs)
    } else if key == "window_context_enabled"@ {
        Some(SettingKey::WindowContextEnabled)
    } else {
        None
    }
}

impl SettingKey {
    /// The setting a key names, if any.
    pub fn parse(key: &str) -> (k: Option<SettingKey>)
        ensures
            k == setting_key_of(key@),
    {
        if str_eq(key, "hotkey") {
            Some(SettingKey::Hotkey)
        } else if str_eq(key, "shortcut_profiles") {
            Some(SettingKey::ShortcutProfiles)
        } else if str_eq(key, "recording_mode") {
            Some(SettingKey::RecordingMode)
        } else if str_eq(key, "model") {
            Some(SettingKey::Model)
        } else if str_eq(key, "stt_engine") {
            Some(SettingKey::SttEngine)
        } else if str_eq(key, "pill_position") {
            Some(SettingKey::PillPosition)
        } else if str_eq(key, "pill_indicator_mode") {
            Some(SettingKey::PillIndicatorMode)
        } else if str_eq(key, "auto_start") {
            Some(SettingKey::AutoStart)
        } else if str_eq(key, "gpu_acceleration") {
            Some(SettingKey::GpuAcceleration)
        } else if str_eq(key, "language") {
            Some(SettingKey::Language)
        } else if str_eq(key, "stt_engine_language") {
            Some(SettingKey::SttEngineLanguage)
        } else if str_eq(key, "beep_on_record") {
            Some(SettingKey::BeepOnRecord)
        } else if str_eq(key, "audio_device") {
            Some(SettingKey::AudioDevice)
        } else if str_eq(key, "polish_system_prompt") {
            Some(SettingKey::PolishSystemPrompt)
        } else if str_eq(key, "polish_model") {
            Some(SettingKey::PolishModel)
        } else if str_eq(key, "theme_mode") {
            Some(SettingKey::ThemeMode)
        } else if str_eq(key, "stt_engine_initial_prompt") {
            Some(SettingKey::SttEngineInitialPrompt)
        } else if str_eq(key, "model_resident") {
            Some(SettingKey::ModelResident)
        } else if str_eq(key, "idle_unload_minutes") {
            Some(SettingKey::IdleUnloadMinutes)
        } else if str_eq(key, "denoise_mode") {
            Some(SettingKey::DenoiseMode)
        } else if str_eq(key, "stt_engine_work_domain") {
            Some(SettingKey::SttEngineWorkDomain)
        } else if str_eq(key, "stt_engine_work_domain_prompt") {
            Some(SettingKey::SttEngineWorkDomainPrompt)
        } else if str_eq(key, "stt_engine_work_subdomain") {
            Some(SettingKey::SttEngineWorkSubdomain)
        } else if str_eq(key, "stt_engine_user_glossary") {
            Some(SettingKey::SttEngineUserGlossary)
        } else if str_eq(key, "analytics_opt_in") {
            Some(SettingKey::AnalyticsOptIn)
        } else if str_eq(key, "vad_enabled") {
            Some(SettingKey::VadEnabled)
        } else if str_eq(key, "stay_in_tray") {
            Some(SettingKey::StayInTray)
        } else if str_eq(key, "cloud_stt_enabled") {
            Some(SettingKey::CloudSttEnabled)
        } else if str_eq(key, "active_cloud_stt_provider") {
            Some(SettingKey::ActiveCloudSttProvider)
        } else if str_eq(key, "cloud_stt_configs") {
            Some(SettingKey::CloudSttConfigs)
        } else if str_eq(key, "cloud_polish_enabled") {
            Some(SettingKey::CloudPolishEnabled)
        } else if str_eq(key, "active_cloud_polish_provider") {
            Some(SettingKey::ActiveCloudPolishProvider)
        } else if str_eq(key, "cloud_polish_configs") {
            Some(SettingKey::CloudPolishConfigs)
        } else if str_eq(key, "window_context_enabled") {
            Some(SettingKey::WindowContextEnabled)
        } else {
            None
        }
    }
}

/// A new setting value as the settings logic reads it: the value as a string,
/// as a boolean and as an unsigned integer where it is one, and the value
/// read as shortcut profiles or as a provider table where it reads as one.
#[derive(Debug)]
pub struct SettingValue {
    pub as_str: Option<String>,
    pub as_bool: Option<bool>,
    pub as_u64: Option<u64>,
    pub profiles: Option<ShortcutProfilesMap>,
    pub stt_configs: Option<Vec<(String, CloudSttConfig)>>,
    pub polish_configs: Option<Vec<(String, CloudProviderConfig)>>,
}

/// The tables a value carries hold each provider at most once.
pub open spec fn value_tables_unique(v: SettingValue) -> bool {
    &&& (v.stt_configs matches Some(c) ==> keys_unique(c@))
    &&& (v.polish_configs matches Some(c) ==> keys_unique(c@))
}

/// The work a settings change calls for.
#[derive(Debug)]
pub struct SettingsUpdateEffects {
    /// Drop the loaded speech-to-text engines once the settings are stored.
    pub should_clear_cache: bool,
    /// Load this speech-to-text model in the background.
    pub model_to_preload: Option<String>,
    /// Register this hotkey for the dictation profile.
    pub hotkey_to_register: Option<String>,
    /// Move the pill window to this position.
    pub preset_to_apply: Option<String>,
    /// Show or hide the pill window under this mode.
    pub indicator_mode_to_apply: Option<String>,
    /// Switch the engines' hardware acceleration on or off now.
    pub gpu_provider_change: Option<bool>,
    /// Drop the loaded engines now: their language changed.
    pub engine_language_changed: bool,
    /// Turn the recording beep on or off.
    pub beep_change: Option<bool>,
    /// Apply the stay-in-tray choice to the application.
    pub stay_in_tray_change: Option<bool>,
}

/// No work at all.
pub open spec fn no_effects() -> SettingsUpdateEffects {
    SettingsUpdateEffects {
        should_clear_cache: false,
        model_to_preload: None,
        hotkey_to_register: None,
        preset_to_apply: None,
        indicator_mode_to_apply: None,
        gpu_provider_change: None,
        engine_language_changed: false,
        beep_change: None,
        stay_in_tray_change: None,
    }
}

/// The settings after a change: the named field takes the value where the
/// value has the field's kind; otherwise nothing changes.
pub open spec fn settings_after(s: AppSettings, k: SettingKey, v: SettingValue, engine: Option<String>) -> AppSettings {
    match k {
        SettingKey::Hotkey => match v.as_str {
            Some(x) => AppSettings {
                shortcut_profiles: ShortcutProfilesMap {
                    dictate: ShortcutProfile { hotkey: x, ..s.shortcut_profiles.dictate },
                    ..s.shortcut_profiles
                },
                ..s
            },
            None => s,
        },
        SettingKey::ShortcutProfiles => match v.profiles {
            Some(p) => AppSettings { shortcut_profiles: p, ..s },
            None => s,
        },
        SettingKey::RecordingMode => match v.as_str {
            Some(x) => AppSettings { recording_mode: x, ..s },
            None => s,
        },
        SettingKey::Model => match v.as_str {
            Some(x) => if s.model@ != x@ {
                match engine {
                    Some(e) => AppSettings { model: x, stt_engine: e, ..s },
                    None => AppSettings { model: x, ..s },
                }
            } else {
                AppSettings { model: x, ..s }
            },
            None => s,
        },
        SettingKey::SttEngine => match v.as_str {
            Some(x) => AppSettings { stt_engine: x, ..s },
            None => s,
        },
        SettingKey::PillPosition => match v.as_str {
            Some(x) => AppSettings { pill_position: x, ..s },
            None => s,
        },
        SettingKey::PillIndicatorMode => match v.as_str {
            Some(x) => AppSettings { pill_indicator_mode: x, ..s },
            None => s,
        },
        SettingKey::AutoStart => match v.as_bool {
            Some(b) => AppSettings { auto_start: b, ..s },
            None => s,
        },
        SettingKey::GpuAcceleration => match v.as_bool {
            Some(b) => AppSettings { gpu_acceleration: b, ..s },
            None => s,
        },
        SettingKey::Language => match v.as_str {
            Some(x) => AppSettings { language: x, ..s },
            None => s,
        },
        SettingKey::SttEngineLanguage => match v.as_str {
            Some(x) => AppSettings { stt_engine_language: x, ..s },
            None => s,
        },
        SettingKey::BeepOnRecord => match v.as_bool {
            Some(b) => AppSettings { beep_on_record: b, ..s },
            None => s,
        },
        SettingKey::AudioDevice => match v.as_str {
            Some(x) => AppSettings { audio_device: x, ..s },
            None => s,
        },
        SettingKey::PolishSystemPrompt => match v.as_str {
            Some(x) => AppSettings { polish_system_prompt: x, ..s },
            None => s,
        },
        SettingKey::PolishModel => match v.as_str {
            Some(x) => AppSettings { polish_model: x, ..s },
            None => s,
        },
        SettingKey::ThemeMode => match v.as_str {
            Some(x) => AppSettings { theme_mode: x, ..s },
            None => s,
        },
        SettingKey::SttEngineInitialPrompt => match v.as_str {
            Some(x) => AppSettings { stt_engine_initial_prompt: x, ..s },
            None => s,
        },
        SettingKey::ModelResident => match v.as_bool {
            Some(b) => AppSettings { model_resident: b, ..s },
            None => s,
        },
        SettingKey::IdleUnloadMinutes => match v.as_u64 {
            Some(n) => AppSettings { idle_unload_minutes: n as u32, ..s },
            None => s,
        },
        SettingKey::DenoiseMode => match v.as_str {
            Some(x) => AppSettings { denoise_mode: x, ..s },
            None => s,
        },
        SettingKey::SttEngineWorkDomain => match v.as_str {
            Some(x) => AppSettings { stt_engine_work_domain: x, ..s },
            None => s,
        },
        SettingKey::SttEngineWorkDomainPrompt => match v.as_str {
            Some(x) => AppSettings { stt_engine_work_domain_prompt: x, ..s },
            None => s,
        },
        SettingKey::SttEngineWorkSubdomain => match v.as_str {
            Some(x) => AppSettings { stt_engine_work_subdomain: x, ..s },
            None => s,
        },
        SettingKey::SttEngineUserGlossary => match v.as_str {
            Some(x) => AppSettings { stt_engine_user_glossary: x, ..s },
            None => s,
        },
        SettingKey::AnalyticsOptIn => match v.as_bool {
            Some(b) => AppSettings { analytics_opt_in: b, ..s },
            None => s,
        },
        SettingKey::VadEnabled => match v.as_bool {
            Some(b) => AppSettings { vad_enabled: b, ..s },
            None => s,
        },
        SettingKey::StayInTray => match v.as_bool {
            Some(b) => AppSettings { stay_in_tray: b, ..s },
            None => s,
        },
        SettingKey::CloudSttEnabled => match v.as_bool {
            Some(b) => AppSettings { cloud_stt_enabled: b, ..s },
            None => s,
        },
        SettingKey::ActiveCloudSttProvider => match v.as_str {
            Some(x) => AppSettings { active_cloud_stt_provider: x, ..s },
            None => s,
        },
        SettingKey::CloudSttConfigs => match v.stt_configs {
            Some(c) => AppSettings { cloud_stt_configs: c, ..s },
            None => s,
        },
        SettingKey::CloudPolishEnabled => match v.as_bool {
            Some(b) => AppSettings { cloud_polish_enabled: b, ..s },
            None => s,
        },
        SettingKey::ActiveCloudPolishProvider => match v.as_str {
            Some(x) => AppSettings { active_cloud_polish_provider: x, ..s },
            None => s,
        },
        SettingKey::CloudPolishConfigs => match v.polish_configs {
            Some(c) => AppSettings { cloud_polish_configs: c, ..s },
            None => s,
        },
        SettingKey::WindowContextEnabled => match v.as_bool {
            Some(b) => AppSettings { window_context_enabled: b, ..s },
            None => s,
        },
    }
}

/// The work a change calls for.  A new model is loaded and the engines
/// dropped when the model changes; hardware acceleration and resident
/// models drop the engines when they change (a model made resident is
/// loaded); the beep is turned on or off when that setting changes; a new
/// pill position or indicator mode is applied from the stored settings.
pub open spec fn effects_after(s: AppSettings, k: SettingKey, v: SettingValue) -> SettingsUpdateEffects {
    match k {
        SettingKey::Hotkey => match v.as_str {
            Some(x) => SettingsUpdateEffects { hotkey_to_register: Some(x), ..no_effects() },
            None => no_effects(),
        },
        SettingKey::Model => match v.as_str {
            Some(x) => if s.model@ != x@ {
                SettingsUpdateEffects { should_clear_cache: true, model_to_preload: Some(x), ..no_effects() }
            } else {
                no_effects()
            },
            None => no_effects(),
        },
        SettingKey::PillPosition => SettingsUpdateEffects {
            preset_to_apply: Some(
                match v.as_str {
                    Some(x) => x,
                    None => s.pill_position,
                },
            ),
            ..no_effects()
        },
        SettingKey::PillIndicatorMode => SettingsUpdateEffects {
            indicator_mode_to_apply: Some(
                match v.as_str {
                    Some(x) => x,
                    None => s.pill_indicator_mode,
                },
            ),
            ..no_effects()
        },
        SettingKey::GpuAcceleration => match v.as_bool {
            Some(b) => if b != s.gpu_acceleration {
                SettingsUpdateEffects { should_clear_cache: true, gpu_provider_change: Some(b), ..no_effects() }
            } else {
                no_effects()
            },
            None => no_effects(),
        },
        SettingKey::SttEngineLanguage => match v.as_str {
            Some(x) => SettingsUpdateEffects { engine_language_changed: s.stt_engine_language@ != x@, ..no_effects() },
            None => no_effects(),
        },
        SettingKey::BeepOnRecord => match v.as_bool {
            Some(b) => if b != s.beep_on_record {
                SettingsUpdateEffects { beep_change: Some(b), ..no_effects() }
            } else {
                no_effects()
            },
            None => no_effects(),
        },
        SettingKey::ModelResident => match v.as_bool {
            Some(b) => if b != s.model_resident {
                SettingsUpdateEffects {
                    should_clear_cache: true,
                    model_to_preload: if b {
                        Some(s.model)
                    } else {
                        None
                    },
                    ..no_effects()
                }
            } else {
                no_effects()
            },
            None => no_effects(),
        },
        SettingKey::StayInTray => match v.as_bool {
            Some(b) => SettingsUpdateEffects { stay_in_tray_change: Some(b), ..no_effects() },
            None => no_effects(),
        },
        _ => no_effects(),
    }
}



/// An update that does nothing.
fn nothing() -> (e: SettingsUpdateEffects)
    ensures
        e == no_effects(),
{
    SettingsUpdateEffects {
        should_clear_cache: false,
        model_to_preload: None,
        hotkey_to_register: None,
        preset_to_apply: None,
        indicator_mode_to_apply: None,
        gpu_provider_change: None,
        engine_language_changed: false,
        beep_change: None,
        stay_in_tray_change: None,
    }
}

/// Changes the `hotkey` setting.
#[allow(unused_variables)]
fn apply_hotkey(settings: &mut AppSettings, value: SettingValue, engine: Option<String>) -> (e: SettingsUpdateEffects)
    ensures
        *final(settings) == settings_after(*old(settings), SettingKey::Hotkey, value, engine),
        e == effects_after(*old(settings), SettingKey::Hotkey, value),
{
    let SettingValue { as_str, as_bool, as_u64, profiles, stt_configs, polish_configs } = value;
    match as_str {
        Some(x) => {
            let reg = x.clone();
            settings.shortcut_profiles.dictate.hotkey = x;
            SettingsUpdateEffects { hotkey_to_register: Some(reg), ..nothing() }
        },
        None => nothing(),
    }
}

/// Changes the `shortcut_profiles` setting.
#[allow(unused_variables)]
fn apply_shortcut_profiles(settings: &mut AppSettings, value: SettingValue, engine: Option<String>) -> (e: SettingsUpdateEffects)
    ensures
        *final(settings) == settings_after(*old(settings), SettingKey::ShortcutProfiles, value, engine),
        e == effects_after(*old(settings), SettingKey::ShortcutProfiles, value),
{
    let SettingValue { as_str, as_bool, as_u64, profiles, stt_configs, polish_configs } = value;
    if let Some(p) = profiles {
        settings.shortcut_profiles = p;
    }
    nothing()
}

/// Changes the `recording_mode` setting.
#[allow(unused_variables)]
fn apply_recording_mode(settings: &mut AppSettings, value: SettingValue, engine: Option<String>) -> (e: SettingsUpdateEffects)
    ensures
        *final(settings) == settings_after(*old(settings), SettingKey::RecordingMode, value, engine),
        e == effects_after(*old(settings), SettingKey::RecordingMode, value),
{
    let SettingValue { as_str, as_bool, as_u64, profiles, stt_configs, polish_configs } = value;
    if let Some(x) = as_str {
        settings.recording_mode = x;
    }
    nothing()
}

/// Changes the `model` setting.
#[allow(unused_variables)]
fn apply_model(settings: &mut AppSettings, value: SettingValue, engine: Option<String>) -> (e: SettingsUpdateEffects)
    ensures
        *final(settings) == settings_after(*old(settings), SettingKey::Model, value, engine),
        e == effects_after(*old(settings), SettingKey::Model, value),
{
    let SettingValue { as_str, as_bool, as_u64, profiles, stt_configs, polish_configs } = value;
    match as_str {
        Some(x) => {
            let mut e = nothing();
            if !str_eq(settings.model.as_str(), x.as_str()) {
                e.should_clear_cache = true;
                e.model_to_preload = Some(x.clone());
                if let Some(engine_name) = engine {
                    settings.stt_engine = engine_name;
                }
            }
            settings.model = x;
            e
        },
        None => nothing(),
    }
}

/// Changes the `stt_engine` setting.
#[allow(unused_variables)]
fn apply_stt_engine(settings: &mut AppSettings, value: SettingValue, engine: Option<String>) -> (e: SettingsUpdateEffects)
    ensures
        *final(settings) == settings_after(*old(settings), SettingKey::SttEngine, value, engine),
        e == effects_after(*old(settings), SettingKey::SttEngine, value),
{
    let SettingValue { as_str, as_bool, as_u64, profiles, stt_configs, polish_configs } = value;
    if let Some(x) = as_str {
        settings.stt_engine = x;
    }
    nothing()
}

/// Changes the `pill_position` setting.
#[allow(unused_variables)]
fn apply_pill_position(settings: &mut AppSettings, value: SettingValue, engine: Option<String>) -> (e: SettingsUpdateEffects)
    ensures
        *final(settings) == settings_after(*old(settings), SettingKey::PillPosition, value, engine),
        e == effects_after(*old(settings), SettingKey::PillPosition, value),
{
    let SettingValue { as_str, as_bool, as_u64, profiles, stt_configs, polish_configs } = value;
    if let Some(x) = as_str {
        settings.pill_position = x;
    }
    SettingsUpdateEffects { preset_to_apply: Some(settings.pill_position.clone()), ..nothing() }
}

/// Changes the `pill_indicator_mode` setting.
#[allow(unused_variables)]
fn apply_pill_indicator_mode(settings: &mut AppSettings, value: SettingValue, engine: Option<String>) -> (e: SettingsUpdateEffects)
    ensures
        *final(settings) == settings_after(*old(settings), SettingKey::PillIndicatorMode, value, engine),
        e == effects_after(*old(settings), SettingKey::PillIndicatorMode, value),
{
    let SettingValue { as_str, as_bool, as_u64, profiles, stt_configs, polish_configs } = value;
    if let Some(x) = as_str {
        settings.pill_indicator_mode = x;
    }
    SettingsUpdateEffects { indicator_mode_to_apply: Some(settings.pill_indicator_mode.clone()), ..nothing() }
}

/// Changes the `auto_start` setting.
#[allow(unused_variables)]
fn apply_auto_start(settings: &mut AppSettings, value: SettingValue, engine: Option<String>) -> (e: SettingsUpdateEffects)
    ensures
        *final(settings) == settings_after(*old(settings), SettingKey::AutoStart, value, engine),
        e == effects_after(*old(settings), SettingKey::AutoStart, value),
{
    let SettingValue { as_str, as_bool, as_u64, profiles, stt_configs, polish_configs } = value;
    if let Some(b) = as_bool {
        settings.auto_start = b;
    }
    nothing()
}

/// Changes the `gpu_acceleration` setting.
#[allow(unused_variables)]
fn apply_gpu_acceleration(settings: &mut AppSettings, value: SettingValue, engine: Option<String>) -> (e: SettingsUpdateEffects)
    ensures
        *final(settings) == settings_after(*old(settings), SettingKey::GpuAcceleration, value, engine),
        e == effects_after(*old(settings), SettingKey::GpuAcceleration, value),
{
    let SettingValue { as_str, as_bool, as_u64, profiles, stt_configs, polish_configs } = value;
    match as_bool {
        Some(b) => {
            let mut e = nothing();
            if b != settings.gpu_acceleration {
                e.should_clear_cache = true;
                e.gpu_provider_change = Some(b);
            }
            settings.gpu_acceleration = b;
            e
        },
        None => nothing(),
    }
}

/// Changes the `language` setting.
#[allow(unused_variables)]
fn apply_language(settings: &mut AppSettings, value: SettingValue, engine: Option<String>) -> (e: SettingsUpdateEffects)
    ensures
        *final(settings) == settings_after(*old(settings), SettingKey::Language, value, engine),
        e == effects_after(*old(settings), SettingKey::Language, value),
{
    let SettingValue { as_str, as_bool, as_u64, profiles, stt_configs, polish_configs } = value;
    if let Some(x) = as_str {
        settings.language = x;
    }
    nothing()
}

/// Changes the `stt_engine_language` setting.
#[allow(unused_variables)]
fn apply_stt_engine_language(settings: &mut AppSettings, value: SettingValue, engine: Option<String>) -> (e: SettingsUpdateEffects)
    ensures
        *final(settings) == settings_after(*old(settings), SettingKey::SttEngineLanguage, value, engine),
        e == effects_after(*old(settings), SettingKey::SttEngineLanguage, value),
{
    let SettingValue { as_str, as_bool, as_u64, profiles, stt_configs, polish_configs } = value;
    match as_str {
        Some(x) => {
            let changed = !str_eq(settings.stt_engine_language.as_str(), x.as_str());
            settings.stt_engine_language = x;
            SettingsUpdateEffects { engine_language_changed: changed, ..nothing() }
        },
        None => nothing(),
    }
}

/// Changes the `beep_on_record` setting.
#[allow(unused_variables)]
fn apply_beep_on_record(settings: &mut AppSettings, value: SettingValue, engine: Option<String>) -> (e: SettingsUpdateEffects)
    ensures
        *final(settings) == settings_after(*old(settings), SettingKey::BeepOnRecord, value, engine),
        e == effects_after(*old(settings), SettingKey::BeepOnRecord, value),
{
    let SettingValue { as_str, as_bool, as_u64, profiles, stt_configs, polish_configs } = value;
    match as_bool {
        Some(b) => {
            let mut e = nothing();
            if b != settings.beep_on_record {
                e.beep_change = Some(b);
            }
            settings.beep_on_record = b;
            e
        },
        None => nothing(),
    }
}

/// Changes the `audio_device` setting.
#[allow(unused_variables)]
fn apply_audio_device(settings: &mut AppSettings, value: SettingValue, engine: Option<String>) -> (e: SettingsUpdateEffects)
    ensures
        *final(settings) == settings_after(*old(settings), SettingKey::AudioDevice, value, engine),
        e == effects_after(*old(settings), SettingKey::AudioDevice, value),
{
    let SettingValue { as_str, as_bool, as_u64, profiles, stt_configs, polish_configs } = value;
    if let Some(x) = as_str {
        settings.audio_device = x;
    }
    nothing()
}

/// Changes the `polish_system_prompt` setting.
#[allow(unused_variables)]
fn apply_polish_system_prompt(settings: &mut AppSettings, value: SettingValue, engine: Option<String>) -> (e: SettingsUpdateEffects)
    ensures
        *final(settings) == settings_after(*old(settings), SettingKey::PolishSystemPrompt, value, engine),
        e == effects_after(*old(settings), SettingKey::PolishSystemPrompt, value),
{
    let SettingValue { as_str, as_bool, as_u64, profiles, stt_configs, polish_configs } = value;
    if let Some(x) = as_str {
        settings.polish_system_prompt = x;
    }
    nothing()
}

/// Changes the `polish_model` setting.
#[allow(unused_variables)]
fn apply_polish_model(settings: &mut AppSettings, value: SettingValue, engine: Option<String>) -> (e: SettingsUpdateEffects)
    ensures
        *final(settings) == settings_after(*old(settings), SettingKey::PolishModel, value, engine),
        e == effects_after(*old(settings), SettingKey::PolishModel, value),
{
    let SettingValue { as_str, as_bool, as_u64, profiles, stt_configs, polish_configs } = value;
    if let Some(x) = as_str {
        settings.polish_model = x;
    }
    nothing()
}

/// Changes the `theme_mode` setting.
#[allow(unused_variables)]
fn apply_theme_mode(settings: &mut AppSettings, value: SettingValue, engine: Option<String>) -> (e: SettingsUpdateEffects)
    ensures
        *final(settings) == settings_after(*old(settings), SettingKey::ThemeMode, value, engine),
        e == effects_after(*old(settings), SettingKey::ThemeMode, value),
{
    let SettingValue { as_str, as_bool, as_u64, profiles, stt_configs, polish_configs } = value;
    if let Some(x) = as_str {
        settings.theme_mode = x;
    }
    nothing()
}

/// Changes the `stt_engine_initial_prompt` setting.
#[allow(unused_variables)]
fn apply_stt_engine_initial_prompt(settings: &mut AppSettings, value: SettingValue, engine: Option<String>) -> (e: SettingsUpdateEffects)
    ensures
        *final(settings) == settings_after(*old(settings), SettingKey::SttEngineInitialPrompt, value, engine),
        e == effects_after(*old(settings), SettingKey::SttEngineInitialPrompt, value),
{
    let SettingValue { as_str, as_bool, as_u64, profiles, stt_configs, polish_configs } = value;
    if let Some(x) = as_str {
        settings.stt_engine_initial_prompt = x;
    }
    nothing()
}

/// Changes the `model_resident` setting.
#[allow(unused_variables)]
fn apply_model_resident(settings: &mut AppSettings, value: SettingValue, engine: Option<String>) -> (e: SettingsUpdateEffects)
    ensures
        *final(settings) == settings_after(*old(settings), SettingKey::ModelResident, value, engine),
        e == effects_after(*old(settings), SettingKey::ModelResident, value),
{
    let SettingValue { as_str, as_bool, as_u64, profiles, stt_configs, polish_configs } = value;
    match as_bool {
        Some(b) => {
            let mut e = nothing();
            if b != settings.model_resident {
                e.should_clear_cache = true;
                if b {
                    e.model_to_preload = Some(settings.model.clone());
                }
            }
            settings.model_resident = b;
            e
        },
        None => nothing(),
    }
}

/// Changes the `idle_unload_minutes` setting.
#[allow(unused_variables)]
fn apply_idle_unload_minutes(settings: &mut AppSettings, value: SettingValue, engine: Option<String>) -> (e: SettingsUpdateEffects)
    ensures
        *final(settings) == settings_after(*old(settings), SettingKey::IdleUnloadMinutes, value, engine),
        e == effects_after(*old(settings), SettingKey::IdleUnloadMinutes, value),
{
    let SettingValue { as_str, as_bool, as_u64, profiles, stt_configs, polish_configs } = value;
    if let Some(n) = as_u64 {
        settings.idle_unload_minutes = n as u32;
    }
    nothing()
}

/// Changes the `denoise_mode` setting.
#[allow(unused_variables)]
fn apply_denoise_mode(settings: &mut AppSettings, value: SettingValue, engine: Option<String>) -> (e: SettingsUpdateEffects)
    ensures
        *final(settings) == settings_after(*old(settings), SettingKey::DenoiseMode, value, engine),
        e == effects_after(*old(settings), SettingKey::DenoiseMode, value),
{
    let SettingValue { as_str, as_bool, as_u64, profiles, stt_configs, polish_configs } = value;
    if let Some(x) = as_str {
        settings.denoise_mode = x;
    }
    nothing()
}

/// Changes the `stt_engine_work_domain` setting.
#[allow(unused_variables)]
fn apply_stt_engine_work_domain(settings: &mut AppSettings, value: SettingValue, engine: Option<String>) -> (e: SettingsUpdateEffects)
    ensures
        *final(settings) == settings_after(*old(settings), SettingKey::SttEngineWorkDomain, value, engine),
        e == effects_after(*old(settings), SettingKey::SttEngineWorkDomain, value),
{
    let SettingValue { as_str, as_bool, as_u64, profiles, stt_configs, polish_configs } = value;
    if let Some(x) = as_str {
        settings.stt_engine_work_domain = x;
    }
    nothing()
}

/// Changes the `stt_engine_work_domain_prompt` setting.
#[allow(unused_variables)]
fn apply_stt_engine_work_domain_prompt(settings: &mut AppSettings, value: SettingValue, engine: Option<String>) -> (e: SettingsUpdateEffects)
    ensures
        *final(settings) == settings_after(*old(settings), SettingKey::SttEngineWorkDomainPrompt, value, engine),
        e == effects_after(*old(settings), SettingKey::SttEngineWorkDomainPrompt, value),
{
    let SettingValue { as_str, as_bool, as_u64, profiles, stt_configs, polish_configs } = value;
    if let Some(x) = as_str {
        settings.stt_engine_work_domain_prompt = x;
    }
    nothing()
}

/// Changes the `stt_engine_work_subdomain` setting.
#[allow(unused_variables)]
fn apply_stt_engine_work_subdomain(settings: &mut AppSettings, value: SettingValue, engine: Option<String>) -> (e: SettingsUpdateEffects)
    ensures
        *final(settings) == settings_after(*old(settings), SettingKey::SttEngineWorkSubdomain, value, engine),
        e == effects_after(*old(settings), SettingKey::SttEngineWorkSubdomain, value),
{
    let SettingValue { as_str, as_bool, as_u64, profiles, stt_configs, polish_configs } = value;
    if let Some(x) = as_str {
        settings.stt_engine_work_subdomain = x;
    }
    nothing()
}

/// Changes the `stt_engine_user_glossary` setting.
#[allow(unused_variables)]
fn apply_stt_engine_user_glossary(settings: &mut AppSettings, value: SettingValue, engine: Option<String>) -> (e: SettingsUpdateEffects)
    ensures
        *final(settings) == settings_after(*old(settings), SettingKey::SttEngineUserGlossary, value, engine),
        e == effects_after(*old(settings), SettingKey::SttEngineUserGlossary, value),
{
    let SettingValue { as_str, as_bool, as_u64, profiles, stt_configs, polish_configs } = value;
    if let Some(x) = as_str {
        settings.stt_engine_user_glossary = x;
    }
    nothing()
}

/// Changes the `analytics_opt_in` setting.
#[allow(unused_variables)]
fn apply_analytics_opt_in(settings: &mut AppSettings, value: SettingValue, engine: Option<String>) -> (e: SettingsUpdateEffects)
    ensures
        *final(settings) == settings_after(*old(settings), SettingKey::AnalyticsOptIn, value, engine),
        e == effects_after(*old(settings), SettingKey::AnalyticsOptIn, value),
{
    let SettingValue { as_str, as_bool, as_u64, profiles, stt_configs, polish_configs } = value;
    if let Some(b) = as_bool {
        settings.analytics_opt_in = b;
    }
    nothing()
}

/// Changes the `vad_enabled` setting.
#[allow(unused_variables)]
fn apply_vad_enabled(settings: &mut AppSettings, value: SettingValue, engine: Option<String>) -> (e: SettingsUpdateEffects)
    ensures
        *final(settings) == settings_after(*old(settings), SettingKey::VadEnabled, value, engine),
        e == effects_after(*old(settings), SettingKey::VadEnabled, value),
{
    let SettingValue { as_str, as_bool, as_u64, profiles, stt_configs, polish_configs } = value;
    if let Some(b) = as_bool {
        settings.vad_enabled = b;
    }
    nothing()
}

/// Changes the `stay_in_tray` setting.
#[allow(unused_variables)]
fn apply_stay_in_tray(settings: &mut AppSettings, value: SettingValue, engine: Option<String>) -> (e: SettingsUpdateEffects)
    ensures
        *final(settings) == settings_after(*old(settings), SettingKey::StayInTray, value, engine),
        e == effects_after(*old(settings), SettingKey::StayInTray, value),
{
    let SettingValue { as_str, as_bool, as_u64, profiles, stt_configs, polish_configs } = value;
    match as_bool {
        Some(b) => {
            settings.stay_in_tray = b;
            SettingsUpdateEffects { stay_in_tray_change: Some(b), ..nothing() }
        },
        None => nothing(),
    }
}

/// Changes the `cloud_stt_enabled` setting.
#[allow(unused_variables)]
fn apply_cloud_stt_enabled(settings: &mut AppSettings, value: SettingValue, engine: Option<String>) -> (e: SettingsUpdateEffects)
    ensures
        *final(settings) == settings_after(*old(settings), SettingKey::CloudSttEnabled, value, engine),
        e == effects_after(*old(settings), SettingKey::CloudSttEnabled, value),
{
    let SettingValue { as_str, as_bool, as_u64, profiles, stt_configs, polish_configs } = value;
    if let Some(b) = as_bool {
        settings.cloud_stt_enabled = b;
    }
    nothing()
}

/// Changes the `active_cloud_stt_provider` setting.
#[allow(unused_variables)]
fn apply_active_cloud_stt_provider(settings: &mut AppSettings, value: SettingValue, engine: Option<String>) -> (e: SettingsUpdateEffects)
    ensures
        *final(settings) == settings_after(*old(settings), SettingKey::ActiveCloudSttProvider, value, engine),
        e == effects_after(*old(settings), SettingKey::ActiveCloudSttProvider, value),
{
    let SettingValue { as_str, as_bool, as_u64, profiles, stt_configs, polish_configs } = value;
    if let Some(x) = as_str {
        settings.active_cloud_stt_provider = x;
    }
    nothing()
}

/// Changes the `cloud_stt_configs` setting.
#[allow(unused_variables)]
fn apply_cloud_stt_configs(settings: &mut AppSettings, value: SettingValue, engine: Option<String>) -> (e: SettingsUpdateEffects)
    ensures
        *final(settings) == settings_after(*old(settings), SettingKey::CloudSttConfigs, value, engine),
        e == effects_after(*old(settings), SettingKey::CloudSttConfigs, value),
{
    let SettingValue { as_str, as_bool, as_u64, profiles, stt_configs, polish_configs } = value;
    if let Some(p) = stt_configs {
        settings.cloud_stt_configs = p;
    }
    nothing()
}

/// Changes the `cloud_polish_enabled` setting.
#[allow(unused_variables)]
fn apply_cloud_polish_enabled(settings: &mut AppSettings, value: SettingValue, engine: Option<String>) -> (e: SettingsUpdateEffects)
    ensures
        *final(settings) == settings_after(*old(settings), SettingKey::CloudPolishEnabled, value, engine),
        e == effects_after(*old(settings), SettingKey::CloudPolishEnabled, value),
{
    let SettingValue { as_str, as_bool, as_u64, profiles, stt_configs, polish_configs } = value;
    if let Some(b) = as_bool {
        settings.cloud_polish_enabled = b;
    }
    nothing()
}

/// Changes the `active_cloud_polish_provider` setting.
#[allow(unused_variables)]
fn apply_active_cloud_polish_provider(settings: &mut AppSettings, value: SettingValue, engine: Option<String>) -> (e: SettingsUpdateEffects)
    ensures
        *final(settings) == settings_after(*old(settings), SettingKey::ActiveCloudPolishProvider, value, engine),
        e == effects_after(*old(settings), SettingKey::ActiveCloudPolishProvider, value),
{
    let SettingValue { as_str, as_bool, as_u64, profiles, stt_configs, polish_configs } = value;
    if let Some(x) = as_str {
        settings.active_cloud_polish_provider = x;
    }
    nothing()
}

/// Changes the `cloud_polish_configs` setting.
#[allow(unused_variables)]
fn apply_cloud_polish_configs(settings: &mut AppSettings, value: SettingValue, engine: Option<String>) -> (e: SettingsUpdateEffects)
    ensures
        *final(settings) == settings_after(*old(settings), SettingKey::CloudPolishConfigs, value, engine),
        e == effects_after(*old(settings), SettingKey::CloudPolishConfigs, value),
{
    let SettingValue { as_str, as_bool, as_u64, profiles, stt_configs, polish_configs } = value;
    if let Some(p) = polish_configs {
        settings.cloud_polish_configs = p;
    }
    nothing()
}

/// Changes the `window_context_enabled` setting.
#[allow(unused_variables)]
fn apply_window_context_enabled(settings: &mut AppSettings, value: SettingValue, engine: Option<String>) -> (e: SettingsUpdateEffects)
    ensures
        *final(settings) == settings_after(*old(settings), SettingKey::WindowContextEnabled, value, engine),
        e == effects_after(*old(settings), SettingKey::WindowContextEnabled, value),
{
    let SettingValue { as_str, as_bool, as_u64, profiles, stt_configs, polish_configs } = value;
    if let Some(b) = as_bool {
        settings.window_context_enabled = b;
    }
    nothing()
}

/// Changes the setting `k` to `value`.  `engine` is the speech-to-text
/// engine that serves the new model, where the key is the model and the
/// engine is known.
pub fn apply_setting_key(settings: &mut AppSettings, k: SettingKey, value: SettingValue, engine: Option<String>) -> (e:
    SettingsUpdateEffects)
    ensures
        *final(settings) == settings_after(*old(settings), k, value, engine),
        e == effects_after(*old(settings), k, value),
{
    match k {
        SettingKey::Hotkey => apply_hotkey(settings, value, engine),
        SettingKey::ShortcutProfiles => apply_shortcut_profiles(settings, value, engine),
        SettingKey::RecordingMode => apply_recording_mode(settings, value, engine),
        SettingKey::Model => apply_model(settings, value, engine),
        SettingKey::SttEngine => apply_stt_engine(settings, value, engine),
        SettingKey::PillPosition => apply_pill_position(settings, value, engine),
        SettingKey::PillIndicatorMode => apply_pill_indicator_mode(settings, value, engine),
        SettingKey::AutoStart => apply_auto_start(settings, value, engine),
        SettingKey::GpuAcceleration => apply_gpu_acceleration(settings, value, engine),
        SettingKey::Language => apply_language(settings, value, engine),
        SettingKey::SttEngineLanguage => apply_stt_engine_language(settings, value, engine),
        SettingKey::BeepOnRecord => apply_beep_on_record(settings, value, engine),
        SettingKey::AudioDevice => apply_audio_device(settings, value, engine),
        SettingKey::PolishSystemPrompt => apply_polish_system_prompt(settings, value, engine),
        SettingKey::PolishModel => apply_polish_model(settings, value, engine),
        SettingKey::ThemeMode => apply_theme_mode(settings, value, engine),
        SettingKey::SttEngineInitialPrompt => apply_stt_engine_initial_prompt(settings, value, engine),
        SettingKey::ModelResident => apply_model_resident(settings, value, engine),
        SettingKey::IdleUnloadMinutes => apply_idle_unload_minutes(settings, value, engine),
        SettingKey::DenoiseMode => apply_denoise_mode(settings, value, engine),
        SettingKey::SttEngineWorkDomain => apply_stt_engine_work_domain(settings, value, engine),
        SettingKey::SttEngineWorkDomainPrompt => apply_stt_engine_work_domain_prompt(settings, value, engine),
        SettingKey::SttEngineWorkSubdomain => apply_stt_engine_work_subdomain(settings, value, engine),
        SettingKey::SttEngineUserGlossary => apply_stt_engine_user_glossary(settings, value, engine),
        SettingKey::AnalyticsOptIn => apply_analytics_opt_in(settings, value, engine),
        SettingKey::VadEnabled => apply_vad_enabled(settings, value, engine),
        SettingKey::StayInTray => apply_stay_in_tray(settings, value, engine),
        SettingKey::CloudSttEnabled => apply_cloud_stt_enabled(settings, value, engine),
        SettingKey::ActiveCloudSttProvider => apply_active_cloud_stt_provider(settings, value, engine),
        SettingKey::CloudSttConfigs => apply_cloud_stt_configs(settings, value, engine),
        SettingKey::CloudPolishEnabled => apply_cloud_polish_enabled(settings, value, engine),
        SettingKey::ActiveCloudPolishProvider => apply_active_cloud_polish_provider(settings, value, engine),
        SettingKey::CloudPolishConfigs => apply_cloud_polish_configs(settings, value, engine),
        SettingKey::WindowContextEnabled => apply_window_context_enabled(settings, value, engine),
    }
}

/// Changes the setting named `key` to `value`.  An unknown key is refused
/// with an error naming it, and the settings stay as they were.
pub fn apply_setting(settings: &mut AppSettings, key: &str, value: SettingValue, engine: Option<String>) -> (r:
    Result<SettingsUpdateEffects, String>)
    ensures
        match setting_key_of(key@) {
            Some(k) => {
                &&& r matches Ok(e) && e == effects_after(*old(settings), k, value)
                &&& *final(settings) == settings_after(*old(settings), k, value, engine)
            },
            None => {
                &&& r matches Err(msg) && msg@ == "Unknown setting key: "@ + key@
                &&& *final(settings) == *old(settings)
            },
        },
        old(settings).config_keys_unique() && value_tables_unique(value) ==> final(settings).config_keys_unique(),
{
    match SettingKey::parse(key) {
        Some(k) => Ok(apply_setting_key(settings, k, value, engine)),
        None => {
            let mut msg = owned("Unknown setting key: ");
            append_str(&mut msg, key);
            Err(msg)
        },
    }
}

} // verus!
