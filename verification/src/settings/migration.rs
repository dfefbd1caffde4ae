//! Upgrading settings written by earlier versions of the application: the
//! decisions taken on the stored values.  Reading and rewriting the stored
//! document is done by the caller.
use vstd::prelude::*;

use crate::settings::configs::{CloudProviderConfig, CloudSttConfig};
use crate::shortcut::{ShortcutAction, ShortcutProfile, ShortcutProfilesMap, ShortcutTriggerMode};
use crate::text::{eq_ignore_ascii_case, owned, str_eq, str_eq_ignore_ascii_case};

verus! {

// ---------------------------------------------------------------------------
// Trigger modes of migrated profiles
// ---------------------------------------------------------------------------

/// A profile's trigger mode when it is migrated: the former global recording
/// mode (`"hold"` or `"toggle"`, any ASCII case) if there was one, else hold
/// for dictation and toggle for the riff and custom profiles (hold for any
/// other key).
pub open spec fn profile_trigger_mode_spec(profile_key: Seq<char>, legacy_recording_mode: Option<Seq<char>>) -> ShortcutTriggerMode {
    if legacy_recording_mode matches Some(m) && eq_ignore_ascii_case(m, "hold"@) {
        ShortcutTriggerMode::Hold
    } else if legacy_recording_mode matches Some(m) && eq_ignore_ascii_case(m, "toggle"@) {
        ShortcutTriggerMode::Toggle
    } else if profile_key == "dictate"@ {
        ShortcutTriggerMode::Hold
    } else if profile_key == "riff"@ || profile_key == "custom"@ {
        ShortcutTriggerMode::Toggle
    } else {
        ShortcutTriggerMode::Hold
    }
}

/// The view of an optional string slice.
pub open spec fn opt_str(o: Option<&str>) -> Option<Seq<char>> {
    match o {
        Some(s) => Some(s@),
        None => None,
    }
}

/// The trigger mode a migrated profile gets.
pub fn profile_trigger_mode(profile_key: &str, legacy_recording_mode: Option<&str>) -> (m: ShortcutTriggerMode)
    ensures
        m == profile_trigger_mode_spec(profile_key@, opt_str(legacy_recording_mode)),
{
    if let Some(recording_mode) = legacy_recording_mode {
        if str_eq_ignore_ascii_case(recording_mode, "hold") {
            return ShortcutTriggerMode::Hold;
        }
        if str_eq_ignore_ascii_case(recording_mode, "toggle") {
            return ShortcutTriggerMode::Toggle;
        }
    }
    if str_eq(profile_key, "dictate") {
        ShortcutTriggerMode::Hold
    } else if str_eq(profile_key, "riff") || str_eq(profile_key, "custom") {
        ShortcutTriggerMode::Toggle
    } else {
        ShortcutTriggerMode::Hold
    }
}

// ---------------------------------------------------------------------------
// Shortcut profiles stored as a list or as a single hotkey
// ---------------------------------------------------------------------------

/// One profile of the former list layout, as far as it can be read: its
/// hotkey string and the polish template string of its record action.
#[derive(Debug)]
pub struct LegacyProfileItem {
    pub hotkey: Option<String>,
    pub polish_template_id: Option<String>,
}

/// How a stored profile entry of the map layout looks.
#[derive(Debug, Clone, Copy, PartialEq, Eq, Structural)]
pub enum ProfileEntryShape {
    Missing,
    NotObject,
    Object { has_trigger_mode: bool },
}

/// How the stored shortcut profiles look.
#[derive(Debug)]
pub enum StoredProfiles {
    /// The map layout, with the shape of each of its three entries.
    Keyed { dictate: ProfileEntryShape, riff: ProfileEntryShape, custom: ProfileEntryShape },
    /// The former list layout.
    List(Vec<LegacyProfileItem>),
    /// Absent, or neither a map nor a list; with the hotkey of the former
    /// single-hotkey layout, when one was stored.
    Absent { legacy_hotkey: Option<String> },
}

/// What to do to the stored profiles.
#[derive(Debug)]
pub enum ProfilesMigration {
    /// Keep the map and write these trigger modes into the named entries.
    AddTriggerModes(Vec<(&'static str, ShortcutTriggerMode)>),
    /// Store these profiles in place of what was there.
    Replace(ShortcutProfilesMap),
}

/// A profile of the list layout converted to the map layout.
pub open spec fn converted_profile(
    p: ShortcutProfile,
    item: LegacyProfileItem,
    default_template: Option<Seq<char>>,
    trigger_mode: ShortcutTriggerMode,
) -> bool {
    &&& p.hotkey@ == (match item.hotkey {
        Some(h) => h@,
        None => ""@,
    })
    &&& p.trigger_mode == trigger_mode
    &&& match item.polish_template_id {
        Some(t) => p.action.template_id() == Some(t),
        None => match default_template {
            Some(d) => p.action.template_id() matches Some(t) && t@ == d,
            None => p.action.template_id() is None,
        },
    }
}

/// A profile with a fixed hotkey, trigger mode and template.
pub open spec fn profile_is(p: ShortcutProfile, hotkey: Seq<char>, mode: ShortcutTriggerMode, template: Option<Seq<char>>) -> bool {
    &&& p.hotkey@ == hotkey
    &&& p.trigger_mode == mode
    &&& match template {
        Some(d) => p.action.template_id() matches Some(t) && t@ == d,
        None => p.action.template_id() is None,
    }
}

/// Converts one profile of the list layout: a missing hotkey becomes empty
/// and a missing template becomes the default template.
pub fn convert_array_item_to_profile(
    item: LegacyProfileItem,
    default_template: Option<&str>,
    trigger_mode: ShortcutTriggerMode,
) -> (p: ShortcutProfile)
    ensures
        converted_profile(p, item, opt_str(default_template), trigger_mode),
{
    let ghost item_view = item;
    let LegacyProfileItem { hotkey, polish_template_id } = item;
    let hotkey = match hotkey {
        Some(h) => h,
        None => owned(""),
    };
    let template = match polish_template_id {
        Some(t) => Some(t),
        None => match default_template {
            Some(d) => Some(owned(d)),
            None => None,
        },
    };
    ShortcutProfile {
        hotkey,
        trigger_mode,
        action: ShortcutAction::Record { polish_template_id: template },
    }
}

/// Whether an entry of the map layout needs a trigger mode written into it.
pub open spec fn lacks_trigger_mode(e: ProfileEntryShape) -> bool {
    e == (ProfileEntryShape::Object { has_trigger_mode: false })
}

/// The trigger modes to add to the map layout, in key order.
pub open spec fn added_trigger_modes(
    dictate: ProfileEntryShape,
    riff: ProfileEntryShape,
    custom: ProfileEntryShape,
    legacy: Option<Seq<char>>,
) -> Seq<(Seq<char>, ShortcutTriggerMode)> {
    let a = if lacks_trigger_mode(dictate) {
        seq![("dictate"@, profile_trigger_mode_spec("dictate"@, legacy))]
    } else {
        seq![]
    };
    let b = if lacks_trigger_mode(riff) {
        seq![("riff"@, profile_trigger_mode_spec("riff"@, legacy))]
    } else {
        seq![]
    };
    let c = if lacks_trigger_mode(custom) {
        seq![("custom"@, profile_trigger_mode_spec("custom"@, legacy))]
    } else {
        seq![]
    };
    a + b + c
}

/// The view of the trigger modes to add.
pub open spec fn additions_view(v: Seq<(&'static str, ShortcutTriggerMode)>) -> Seq<(Seq<char>, ShortcutTriggerMode)> {
    v.map_values(|e: (&'static str, ShortcutTriggerMode)| (e.0@, e.1))
}

/// What the migration of the stored profiles does, and whether it changed
/// anything.
pub open spec fn profiles_migration_spec(
    stored: StoredProfiles,
    legacy: Option<Seq<char>>,
    r: (ProfilesMigration, bool),
) -> bool {
    match stored {
        StoredProfiles::Keyed { dictate, riff, custom } => {
            &&& r.0 matches ProfilesMigration::AddTriggerModes(v) && additions_view(v@) == added_trigger_modes(
                dictate,
                riff,
                custom,
                legacy,
            )
            &&& r.1 == (added_trigger_modes(dictate, riff, custom, legacy).len() > 0)
        },
        StoredProfiles::List(items) => {
            &&& r.1
            &&& r.0 matches ProfilesMigration::Replace(m) && {
                &&& if items@.len() > 0 {
                    converted_profile(m.dictate, items@[0], None, profile_trigger_mode_spec("dictate"@, legacy))
                } else {
                    profile_is(m.dictate, "Shift+Space"@, ShortcutTriggerMode::Hold, None)
                }
                &&& if items@.len() > 1 {
                    converted_profile(m.riff, items@[1], Some("filler"@), profile_trigger_mode_spec("riff"@, legacy))
                } else {
                    profile_is(m.riff, ""@, ShortcutTriggerMode::Toggle, Some("filler"@))
                }
                &&& if items@.len() > 2 {
                    m.custom matches Some(c) && converted_profile(
                        c,
                        items@[2],
                        None,
                        profile_trigger_mode_spec("custom"@, legacy),
                    )
                } else {
                    m.custom is None
                }
            }
        },
        StoredProfiles::Absent { legacy_hotkey } => {
            &&& r.1
            &&& r.0 matches ProfilesMigration::Replace(m) && {
                &&& profile_is(
                    m.dictate,
                    match legacy_hotkey {
                        Some(h) => h@,
                        None => "Shift+Space"@,
                    },
                    profile_trigger_mode_spec("dictate"@, legacy),
                    None,
                )
                &&& profile_is(m.riff, ""@, profile_trigger_mode_spec("riff"@, legacy), Some("filler"@))
                &&& m.custom is None
            }
        },
    }
}

/// A profile with no polish template.
fn plain_profile(hotkey: &str, trigger_mode: ShortcutTriggerMode, template: Option<&str>) -> (p: ShortcutProfile)
    ensures
        profile_is(p, hotkey@, trigger_mode, opt_str(template)),
{
    ShortcutProfile {
        hotkey: owned(hotkey),
        trigger_mode,
        action: ShortcutAction::Record {
            polish_template_id: match template {
                Some(t) => Some(owned(t)),
                None => None,
            },
        },
    }
}

/// Decides how stored shortcut profiles are brought to the map layout.  A
/// map only gets the trigger modes its entries lack.  A list becomes a map:
/// its first entry the dictation profile, its second the riff profile, its
/// third the custom profile, missing entries replaced by the defaults.
/// Otherwise fresh profiles are made from the former single hotkey, which
/// becomes the dictation hotkey (Shift+Space when there was none).
pub fn migrate_to_profiles_map(stored: StoredProfiles, legacy_recording_mode: Option<&str>) -> (r: (
    ProfilesMigration,
    bool,
))
    ensures
        profiles_migration_spec(stored, opt_str(legacy_recording_mode), r),
{
    let ghost legacy = opt_str(legacy_recording_mode);
    let ghost stored_view = stored;
    match stored {
        StoredProfiles::Keyed { dictate, riff, custom } => {
            let mut v: Vec<(&'static str, ShortcutTriggerMode)> = Vec::new();
            if dictate == (ProfileEntryShape::Object { has_trigger_mode: false }) {
                v.push(("dictate", profile_trigger_mode("dictate", legacy_recording_mode)));
            }
            let ghost va = v@;
            if riff == (ProfileEntryShape::Object { has_trigger_mode: false }) {
                v.push(("riff", profile_trigger_mode("riff", legacy_recording_mode)));
            }
            let ghost vb = v@;
            if custom == (ProfileEntryShape::Object { has_trigger_mode: false }) {
                v.push(("custom", profile_trigger_mode("custom", legacy_recording_mode)));
            }
            proof {
                let a = if lacks_trigger_mode(dictate) {
                    seq![("dictate"@, profile_trigger_mode_spec("dictate"@, legacy))]
                } else {
                    seq![]
                };
                let b = if lacks_trigger_mode(riff) {
                    seq![("riff"@, profile_trigger_mode_spec("riff"@, legacy))]
                } else {
                    seq![]
                };
                let c = if lacks_trigger_mode(custom) {
                    seq![("custom"@, profile_trigger_mode_spec("custom"@, legacy))]
                } else {
                    seq![]
                };
                assert(additions_view(va) == a);
                assert(additions_view(vb) == a + b);
                assert(additions_view(v@) == a + b + c);
            }
            let changed = v.len() > 0;
            (ProfilesMigration::AddTriggerModes(v), changed)
        },
        StoredProfiles::List(items) => {
            let ghost iv = items@;
            let mut items = items;
            let n = items.len();
            // Take out the first three entries, last first.
            let custom_item = if n > 2 {
                let x = items.remove(2);
                Some(x)
            } else {
                None
            };
            let riff_item = if n > 1 {
                let x = items.remove(1);
                Some(x)
            } else {
                None
            };
            let dictate_item = if n > 0 {
                let x = items.remove(0);
                Some(x)
            } else {
                None
            };
            proof {
                if n > 2 {
                    assert(custom_item == Some(iv[2]));
                }
                if n > 1 {
                    assert(riff_item == Some(iv[1]));
                }
                if n > 0 {
                    assert(dictate_item == Some(iv[0]));
                }
            }
            let dictate = match dictate_item {
                Some(it) => convert_array_item_to_profile(
                    it,
                    None,
                    profile_trigger_mode("dictate", legacy_recording_mode),
                ),
                None => plain_profile("Shift+Space", ShortcutTriggerMode::Hold, None),
            };
            let riff = match riff_item {
                Some(it) => convert_array_item_to_profile(
                    it,
                    Some("filler"),
                    profile_trigger_mode("riff", legacy_recording_mode),
                ),
                None => plain_profile("", ShortcutTriggerMode::Toggle, Some("filler")),
            };
            let custom = match custom_item {
                Some(it) => Some(
                    convert_array_item_to_profile(it, None, profile_trigger_mode("custom", legacy_recording_mode)),
                ),
                None => None,
            };
            (ProfilesMigration::Replace(ShortcutProfilesMap { dictate, riff, custom }), true)
        },
        StoredProfiles::Absent { legacy_hotkey } => {
            let hotkey = match &legacy_hotkey {
                Some(h) => h.as_str(),
                None => "Shift+Space",
            };
            let dictate = plain_profile(
                hotkey,
                profile_trigger_mode("dictate", legacy_recording_mode),
                None,
            );
            let riff = plain_profile("", profile_trigger_mode("riff", legacy_recording_mode), Some("filler"));
            (ProfilesMigration::Replace(ShortcutProfilesMap { dictate, riff, custom: None }), true)
        },
    }
}

/// Law: migrating profiles that already have their trigger modes changes
/// nothing, so the migration can run at every start.
pub proof fn lemma_profiles_migration_is_idempotent(
    dictate: ProfileEntryShape,
    riff: ProfileEntryShape,
    custom: ProfileEntryShape,
    legacy: Option<Seq<char>>,
    r: (ProfilesMigration, bool),
)
    requires
        !lacks_trigger_mode(dictate),
        !lacks_trigger_mode(riff),
        !lacks_trigger_mode(custom),
        profiles_migration_spec(StoredProfiles::Keyed { dictate, riff, custom }, legacy, r),
    ensures
        !r.1,
        r.0 matches ProfilesMigration::AddTriggerModes(v) && v@.len() == 0,
{
    assert(added_trigger_modes(dictate, riff, custom, legacy) =~= Seq::<(Seq<char>, ShortcutTriggerMode)>::empty());
}

// ---------------------------------------------------------------------------
// Cloud settings stored as one configuration per service
// ---------------------------------------------------------------------------

/// The former single speech-to-text configuration.
#[derive(Debug)]
pub struct LegacyCloudSttConfig {
    pub enabled: bool,
    pub provider_type: String,
    pub api_key: String,
    pub app_id: String,
    pub base_url: String,
    pub model: String,
    pub language: String,
}

/// The former single polish configuration.
#[derive(Debug)]
pub struct LegacyCloudProviderConfig {
    pub enabled: bool,
    pub provider_type: String,
    pub api_key: String,
    pub base_url: String,
    pub model: String,
    pub enable_thinking: bool,
}

/// The provider key of a former speech-to-text configuration: the plain
/// `"volcengine"` and the empty key mean the streaming Volcengine service.
pub open spec fn stt_provider_key_spec(provider_type: Seq<char>) -> Seq<char> {
    if provider_type == "volcengine"@ || provider_type.len() == 0 {
        "volcengine-streaming"@
    } else {
        provider_type
    }
}

/// The provider key a former speech-to-text configuration is stored under.
pub fn resolve_stt_provider_type(legacy_config: &LegacyCloudSttConfig) -> (r: String)
    ensures
        r@ == stt_provider_key_spec(legacy_config.provider_type@),
{
    if str_eq(legacy_config.provider_type.as_str(), "volcengine") || legacy_config.provider_type.unicode_len() == 0 {
        owned("volcengine-streaming")
    } else {
        legacy_config.provider_type.clone()
    }
}

/// The new-format speech-to-text settings made from a former configuration:
/// the global switch, the active provider key, and the one stored
/// configuration under that key.
pub fn migrate_cloud_stt_config(legacy: LegacyCloudSttConfig) -> (r: (bool, String, CloudSttConfig))
    ensures
        r.0 == legacy.enabled,
        r.1@ == stt_provider_key_spec(legacy.provider_type@),
        r.2.enabled == legacy.enabled,
        r.2.provider_type@ == r.1@,
        r.2.api_key == legacy.api_key,
        r.2.app_id == legacy.app_id,
        r.2.base_url == legacy.base_url,
        r.2.model == legacy.model,
        r.2.language == legacy.language,
{
    let provider_type = resolve_stt_provider_type(&legacy);
    let config = CloudSttConfig {
        enabled: legacy.enabled,
        provider_type: provider_type.clone(),
        api_key: legacy.api_key,
        app_id: legacy.app_id,
        base_url: legacy.base_url,
        model: legacy.model,
        language: legacy.language,
    };
    (legacy.enabled, provider_type, config)
}

/// The provider key of a former polish configuration: Anthropic when empty.
pub open spec fn polish_provider_key_spec(provider_type: Seq<char>) -> Seq<char> {
    if provider_type.len() == 0 {
        "anthropic"@
    } else {
        provider_type
    }
}

/// The new-format polish settings made from a former configuration.
pub fn migrate_cloud_polish_config(legacy: LegacyCloudProviderConfig) -> (r: (bool, String, CloudProviderConfig))
    ensures
        r.0 == legacy.enabled,
        r.1@ == polish_provider_key_spec(legacy.provider_type@),
        r.2.enabled == legacy.enabled,
        r.2.provider_type@ == r.1@,
        r.2.api_key == legacy.api_key,
        r.2.base_url == legacy.base_url,
        r.2.model == legacy.model,
        r.2.enable_thinking == legacy.enable_thinking,
{
    let provider_type = if legacy.provider_type.unicode_len() == 0 {
        owned("anthropic")
    } else {
        legacy.provider_type.clone()
    };
    let config = CloudProviderConfig {
        enabled: legacy.enabled,
        provider_type: provider_type.clone(),
        api_key: legacy.api_key,
        base_url: legacy.base_url,
        model: legacy.model,
        enable_thinking: legacy.enable_thinking,
    };
    (legacy.enabled, provider_type, config)
}

} // verus!
