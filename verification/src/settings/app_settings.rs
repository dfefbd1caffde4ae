//! The application settings and what they say about the active providers.
use vstd::prelude::*;

use crate::polish::DEFAULT_POLISH_PROMPT;
use crate::settings::configs::{
    config_lookup, find_config, is_blank_polish_config, keys_unique, set_config,
    CloudProviderConfig, CloudSttConfig, CustomPolishTemplate,
};
use crate::shortcut::{ShortcutProfilesMap, ShortcutTriggerMode};
use crate::text::{owned, str_eq};

verus! {

/// All user settings.  The two cloud tables hold one configuration per
/// provider key.
#[derive(Debug, Clone)]
pub struct AppSettings {
    /// Shortcut profiles with fixed keys: dictate, riff and an optional custom one.
    pub shortcut_profiles: ShortcutProfilesMap,
    pub recording_mode: String,
    pub model: String,
    pub stt_engine: String,
    pub pill_position: String,
    pub pill_indicator_mode: String,
    pub auto_start: bool,
    pub gpu_acceleration: bool,
    pub language: String,
    pub stt_engine_language: String,
    pub beep_on_record: bool,
    pub audio_device: String,
    pub polish_system_prompt: String,
    pub polish_model: String,
    pub theme_mode: String,
    pub stt_engine_initial_prompt: String,
    pub model_resident: bool,
    pub idle_unload_minutes: u32,
    pub denoise_mode: String,
    pub stt_engine_work_domain: String,
    pub stt_engine_work_domain_prompt: String,
    pub stt_engine_work_subdomain: String,
    pub stt_engine_user_glossary: String,
    pub analytics_opt_in: bool,
    pub cloud_stt_enabled: bool,
    pub active_cloud_stt_provider: String,
    pub cloud_stt_configs: Vec<(String, CloudSttConfig)>,
    pub cloud_polish_enabled: bool,
    pub active_cloud_polish_provider: String,
    pub cloud_polish_configs: Vec<(String, CloudProviderConfig)>,
    pub vad_enabled: bool,
    pub stay_in_tray: bool,
    pub polish_custom_templates: Vec<CustomPolishTemplate>,
    /// Capture the focused window's text at recording start and give it to
    /// the polish prompt.
    pub window_context_enabled: bool,
}

/// The settings of a fresh installation.
pub open spec fn is_default_settings(s: AppSettings) -> bool {
    &&& s.shortcut_profiles.dictate.hotkey@ == "Shift+Space"@
    &&& s.shortcut_profiles.dictate.trigger_mode == ShortcutTriggerMode::Hold
    &&& s.shortcut_profiles.dictate.action.template_id() is None
    &&& s.shortcut_profiles.riff.hotkey@ == ""@
    &&& s.shortcut_profiles.riff.trigger_mode == ShortcutTriggerMode::Toggle
    &&& (s.shortcut_profiles.riff.action.template_id() matches Some(t) && t@ == "filler"@)
    &&& s.shortcut_profiles.custom is None
    &&& s.recording_mode@ == "hold"@
    &&& s.model@ == "whisper-base"@
    &&& s.stt_engine@ == "whisper"@
    &&& s.pill_position@ == "bottom-center"@
    &&& s.pill_indicator_mode@ == "when_recording"@
    &&& !s.auto_start
    &&& s.gpu_acceleration
    &&& s.language@ == "auto"@
    &&& s.stt_engine_language@ == "auto"@
    &&& s.beep_on_record
    &&& s.audio_device@ == "default"@
    &&& s.polish_system_prompt@ == DEFAULT_POLISH_PROMPT@
    &&& s.polish_model@.len() == 0
    &&& s.theme_mode@ == "light"@
    &&& s.stt_engine_initial_prompt@.len() == 0
    &&& s.model_resident
    &&& s.idle_unload_minutes == 5
    &&& s.denoise_mode@ == "off"@
    &&& s.stt_engine_work_domain@ == "general"@
    &&& s.stt_engine_work_domain_prompt@.len() == 0
    &&& s.stt_engine_work_subdomain@.len() == 0
    &&& s.stt_engine_user_glossary@.len() == 0
    &&& !s.analytics_opt_in
    &&& !s.cloud_stt_enabled
    &&& s.active_cloud_stt_provider@ == "volcengine-streaming"@
    &&& s.cloud_stt_configs@.len() == 0
    &&& !s.cloud_polish_enabled
    &&& s.active_cloud_polish_provider@ == "anthropic"@
    &&& s.cloud_polish_configs@.len() == 0
    &&& !s.vad_enabled
    &&& !s.stay_in_tray
    &&& s.polish_custom_templates@.len() == 0
    &&& !s.window_context_enabled
}

impl Default for AppSettings {
    fn default() -> (s: Self)
        ensures
            is_default_settings(s),
            s.config_keys_unique(),
    {
        AppSettings {
            shortcut_profiles: ShortcutProfilesMap::default_profiles(),
            recording_mode: owned("hold"),
            model: owned("whisper-base"),
            stt_engine: owned("whisper"),
            pill_position: owned("bottom-center"),
            pill_indicator_mode: owned("when_recording"),
            auto_start: false,
            gpu_acceleration: true,
            language: owned("auto"),
            stt_engine_language: owned("auto"),
            beep_on_record: true,
            audio_device: owned("default"),
            polish_system_prompt: owned(DEFAULT_POLISH_PROMPT),
            polish_model: String::new(),
            theme_mode: owned("light"),
            stt_engine_initial_prompt: String::new(),
            model_resident: true,
            idle_unload_minutes: 5,
            denoise_mode: owned("off"),
            stt_engine_work_domain: owned("general"),
            stt_engine_work_domain_prompt: String::new(),
            stt_engine_work_subdomain: String::new(),
            stt_engine_user_glossary: String::new(),
            analytics_opt_in: false,
            cloud_stt_enabled: false,
            active_cloud_stt_provider: owned("volcengine-streaming"),
            cloud_stt_configs: Vec::new(),
            cloud_polish_enabled: false,
            active_cloud_polish_provider: owned("anthropic"),
            cloud_polish_configs: Vec::new(),
            vad_enabled: false,
            stay_in_tray: false,
            polish_custom_templates: Vec::new(),
            window_context_enabled: false,
        }
    }
}

/// The provider keys of the streaming speech-to-text services.
pub open spec fn is_streaming_provider(p: Seq<char>) -> bool {
    p == "volcengine-streaming"@ || p == "aliyun-stream"@ || p == "elevenlabs"@
}

/// What the active speech-to-text configuration is: the stored one for the
/// active provider (or a blank one), with the global switch and the provider
/// key written over it.
pub open spec fn active_stt_config_spec(s: AppSettings, c: CloudSttConfig) -> bool {
    &&& c.enabled == s.cloud_stt_enabled
    &&& c.provider_type@ == s.active_cloud_stt_provider@
    &&& match config_lookup(s.cloud_stt_configs@, s.active_cloud_stt_provider@) {
        Some(stored) => {
            &&& c.api_key == stored.api_key
            &&& c.app_id == stored.app_id
            &&& c.base_url == stored.base_url
            &&& c.model == stored.model
            &&& c.language == stored.language
        },
        None => {
            &&& c.api_key@.len() == 0
            &&& c.app_id@.len() == 0
            &&& c.base_url@.len() == 0
            &&& c.model@.len() == 0
            &&& c.language@.len() == 0
        },
    }
}

/// The cloud polish configuration in force when no provider is asked for: the
/// active provider's stored configuration if it is usable.
pub open spec fn global_polish_spec(s: AppSettings) -> Option<CloudProviderConfig> {
    match config_lookup(s.cloud_polish_configs@, s.active_cloud_polish_provider@) {
        Some(c) => if c.is_usable() {
            Some(c)
        } else {
            None
        },
        None => None,
    }
}

/// The resolved polish provider: a usable override provider, its model
/// replaced by a non-empty model override, or else the global choice.
pub open spec fn resolved_polish_spec(
    s: AppSettings,
    provider_override: Option<Seq<char>>,
    model_override: Option<Seq<char>>,
    r: (Option<String>, CloudProviderConfig),
) -> bool {
    let global = match global_polish_spec(s) {
        Some(c) => {
            &&& r.0 matches Some(k) && k@ == s.active_cloud_polish_provider@
            &&& r.1 == c
        },
        None => r.0 is None && is_blank_polish_config(r.1),
    };
    match provider_override {
        Some(p) => match config_lookup(s.cloud_polish_configs@, p) {
            Some(c) => if c.is_usable() {
                &&& r.0 matches Some(k) && k@ == p
                &&& r.1.enabled
                &&& r.1.provider_type@ == p
                &&& r.1.api_key == c.api_key
                &&& r.1.base_url == c.base_url
                &&& r.1.enable_thinking == c.enable_thinking
                &&& match model_override {
                    Some(m) if m.len() > 0 => r.1.model@ == m,
                    _ => r.1.model == c.model,
                }
            } else {
                global
            },
            None => global,
        },
        None => global,
    }
}

impl AppSettings {
    /// The tables of cloud configurations hold each provider at most once,
    /// as maps keyed by provider do.
    pub open spec fn config_keys_unique(self) -> bool {
        keys_unique(self.cloud_stt_configs@) && keys_unique(self.cloud_polish_configs@)
    }

    /// The configuration of the active speech-to-text provider.
    pub fn get_active_cloud_stt_config(&self) -> (c: CloudSttConfig)
        ensures
            active_stt_config_spec(*self, c),
    {
        let mut config = match find_config(&self.cloud_stt_configs, self.active_cloud_stt_provider.as_str()) {
            Some(i) => self.cloud_stt_configs[i].1.duplicate(),
            None => CloudSttConfig::default(),
        };
        config.enabled = self.cloud_stt_enabled;
        config.provider_type = self.active_cloud_stt_provider.clone();
        config
    }

    /// The stored configuration of the active polish provider, or a blank one.
    pub fn get_active_cloud_polish_config(&self) -> (c: CloudProviderConfig)
        ensures
            match config_lookup(self.cloud_polish_configs@, self.active_cloud_polish_provider@) {
                Some(stored) => c == stored,
                None => is_blank_polish_config(c),
            },
    {
        match find_config(&self.cloud_polish_configs, self.active_cloud_polish_provider.as_str()) {
            Some(i) => self.cloud_polish_configs[i].1.duplicate(),
            None => CloudProviderConfig::default(),
        }
    }

    /// Whether cloud speech to text is on with a streaming provider.
    pub fn is_streaming_stt_active(&self) -> (b: bool)
        ensures
            b == (self.cloud_stt_enabled && is_streaming_provider(self.active_cloud_stt_provider@)),
    {
        let p = self.active_cloud_stt_provider.as_str();
        self.cloud_stt_enabled && (str_eq(p, "volcengine-streaming") || str_eq(p, "aliyun-stream")
            || str_eq(p, "elevenlabs"))
    }

    /// The former name of [`AppSettings::is_streaming_stt_active`].
    pub fn is_volcengine_streaming_active(&self) -> (b: bool)
        ensures
            b == (self.cloud_stt_enabled && is_streaming_provider(self.active_cloud_stt_provider@)),
    {
        self.is_streaming_stt_active()
    }

    /// The dictation profile's hotkey.
    pub fn get_dictate_hotkey(&self) -> (h: String)
        ensures
            h == self.shortcut_profiles.dictate.hotkey,
    {
        self.shortcut_profiles.dictate.hotkey.clone()
    }

    /// Sets the dictation profile's hotkey; nothing else changes.
    pub fn set_dictate_hotkey(&mut self, hotkey: &str)
        ensures
            final(self).shortcut_profiles.dictate.hotkey@ == hotkey@,
            final(self).shortcut_profiles.dictate.trigger_mode == old(self).shortcut_profiles.dictate.trigger_mode,
            final(self).shortcut_profiles.dictate.action == old(self).shortcut_profiles.dictate.action,
            final(self).shortcut_profiles.riff == old(self).shortcut_profiles.riff,
            final(self).shortcut_profiles.custom == old(self).shortcut_profiles.custom,
            *final(self) == (AppSettings { shortcut_profiles: final(self).shortcut_profiles, ..*old(self) }),
    {
        self.shortcut_profiles.dictate.hotkey = owned(hotkey);
    }

    /// The riff profile's hotkey.
    pub fn get_riff_hotkey(&self) -> (h: String)
        ensures
            h == self.shortcut_profiles.riff.hotkey,
    {
        self.shortcut_profiles.riff.hotkey.clone()
    }

    /// Sets the riff profile's hotkey; nothing else changes.
    pub fn set_riff_hotkey(&mut self, hotkey: &str)
        ensures
            final(self).shortcut_profiles.riff.hotkey@ == hotkey@,
            final(self).shortcut_profiles.riff.trigger_mode == old(self).shortcut_profiles.riff.trigger_mode,
            final(self).shortcut_profiles.riff.action == old(self).shortcut_profiles.riff.action,
            final(self).shortcut_profiles.dictate == old(self).shortcut_profiles.dictate,
            final(self).shortcut_profiles.custom == old(self).shortcut_profiles.custom,
            *final(self) == (AppSettings { shortcut_profiles: final(self).shortcut_profiles, ..*old(self) }),
    {
        self.shortcut_profiles.riff.hotkey = owned(hotkey);
    }

    /// The custom profile's hotkey, if there is a custom profile.
    pub fn get_custom_hotkey(&self) -> (h: Option<String>)
        ensures
            h == (match self.shortcut_profiles.custom {
                Some(p) => Some(p.hotkey),
                None => None,
            }),
    {
        match &self.shortcut_profiles.custom {
            Some(p) => Some(p.hotkey.clone()),
            None => None,
        }
    }

    /// Resolves the cloud polish provider.  A provider asked for by name is
    /// used when its stored configuration has an API key and a model (a
    /// non-empty model override replaces the model); otherwise the active
    /// provider is used under the same condition; otherwise polishing falls
    /// back to the local engine (no provider, blank configuration).
    pub fn resolve_polish_config(&self, provider_override: Option<&str>, model_override: Option<&str>) -> (r: (
        Option<String>,
        CloudProviderConfig,
    ))
        ensures
            resolved_polish_spec(
                *self,
                match provider_override {
                    Some(p) => Some(p@),
                    None => None,
                },
                match model_override {
                    Some(m) => Some(m@),
                    None => None,
                },
                r,
            ),
    {
        match provider_override {
            Some(provider_key) => match find_config(&self.cloud_polish_configs, provider_key) {
                Some(i) => {
                    let cfg = &self.cloud_polish_configs[i].1;
                    if cfg.api_key.unicode_len() > 0 && cfg.model.unicode_len() > 0 {
                        let mut resolved = cfg.duplicate();
                        resolved.enabled = true;
                        resolved.provider_type = owned(provider_key);
                        match model_override {
                            Some(m) => {
                                if m.unicode_len() > 0 {
                                    resolved.model = owned(m);
                                }
                            },
                            None => {},
                        }
                        (Some(owned(provider_key)), resolved)
                    } else {
                        self.resolve_global_polish_config()
                    }
                },
                None => self.resolve_global_polish_config(),
            },
            None => self.resolve_global_polish_config(),
        }
    }

    /// The active polish provider if its configuration is usable, else the
    /// local fallback.
    pub fn resolve_global_polish_config(&self) -> (r: (Option<String>, CloudProviderConfig))
        ensures
            resolved_polish_spec(*self, None, None, r),
    {
        match find_config(&self.cloud_polish_configs, self.active_cloud_polish_provider.as_str()) {
            Some(i) => {
                let cfg = &self.cloud_polish_configs[i].1;
                if cfg.api_key.unicode_len() > 0 && cfg.model.unicode_len() > 0 {
                    return (Some(self.active_cloud_polish_provider.clone()), cfg.duplicate());
                }
            },
            None => {},
        }
        (None, CloudProviderConfig::default())
    }

    /// Stores the speech-to-text configuration of a provider.
    pub fn set_cloud_stt_config(&mut self, provider: String, config: CloudSttConfig)
        ensures
            config_lookup(final(self).cloud_stt_configs@, provider@) == Some(config),
            forall|k: Seq<char>|
                k != provider@ ==> config_lookup(final(self).cloud_stt_configs@, k) == config_lookup(
                    old(self).cloud_stt_configs@,
                    k,
                ),
            keys_unique(old(self).cloud_stt_configs@) ==> keys_unique(final(self).cloud_stt_configs@),
            old(self).config_keys_unique() ==> final(self).config_keys_unique(),
            *final(self) == (AppSettings { cloud_stt_configs: final(self).cloud_stt_configs, ..*old(self) }),
    {
        set_config(&mut self.cloud_stt_configs, provider, config);
    }

    /// Stores the polish configuration of a provider.
    pub fn set_cloud_polish_config(&mut self, provider: String, config: CloudProviderConfig)
        ensures
            config_lookup(final(self).cloud_polish_configs@, provider@) == Some(config),
            forall|k: Seq<char>|
                k != provider@ ==> config_lookup(final(self).cloud_polish_configs@, k) == config_lookup(
                    old(self).cloud_polish_configs@,
                    k,
                ),
            keys_unique(old(self).cloud_polish_configs@) ==> keys_unique(final(self).cloud_polish_configs@),
            old(self).config_keys_unique() ==> final(self).config_keys_unique(),
            *final(self) == (AppSettings { cloud_polish_configs: final(self).cloud_polish_configs, ..*old(self) }),
    {
        set_config(&mut self.cloud_polish_configs, provider, config);
    }
}

/// Law: what is stored for the active speech-to-text provider is what the
/// active configuration reads back, under the global switch and the
/// provider's key.
pub proof fn lemma_active_stt_config_reads_back_stored(s: AppSettings, c: CloudSttConfig, stored: CloudSttConfig)
    requires
        config_lookup(s.cloud_stt_configs@, s.active_cloud_stt_provider@) == Some(stored),
        active_stt_config_spec(s, c),
    ensures
        c.api_key == stored.api_key,
        c.app_id == stored.app_id,
        c.base_url == stored.base_url,
        c.model == stored.model,
        c.language == stored.language,
        c.enabled == s.cloud_stt_enabled,
        c.provider_type@ == s.active_cloud_stt_provider@,
{
}

} // verus!
