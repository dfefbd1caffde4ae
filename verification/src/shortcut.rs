//! Shortcut profiles and the decisions taken when a shortcut fires.
use vstd::prelude::*;

use crate::text::{eq_ignore_ascii_case, owned, str_eq, str_eq_ignore_ascii_case};

verus! {

/// How a profile's shortcut controls recording.
#[derive(Debug, Clone, Copy, PartialEq, Eq, Structural)]
pub enum ShortcutTriggerMode {
    /// Record while the shortcut is held.
    Hold,
    /// Each press starts or stops recording.
    Toggle,
}

/// What a profile's shortcut does: record, then polish with a template.
#[derive(Debug, Clone)]
pub enum ShortcutAction {
    Record { polish_template_id: Option<String> },
}

/// A shortcut profile: its hotkey, trigger mode and action.
#[derive(Debug, Clone)]
pub struct ShortcutProfile {
    pub hotkey: String,
    pub trigger_mode: ShortcutTriggerMode,
    pub action: ShortcutAction,
}

/// The profiles: dictation, riff (polished dictation), and an optional
/// custom profile.
#[derive(Debug, Clone)]
pub struct ShortcutProfilesMap {
    pub dictate: ShortcutProfile,
    pub riff: ShortcutProfile,
    pub custom: Option<ShortcutProfile>,
}

/// A copy of an optional string.
pub fn copy_opt_string(s: &Option<String>) -> (r: Option<String>)
    ensures
        r == *s,
{
    match s {
        Some(x) => Some(x.clone()),
        None => None,
    }
}

impl ShortcutAction {
    /// A copy of the action.
    pub fn duplicate(&self) -> (r: Self)
        ensures
            r == *self,
    {
        match self {
            ShortcutAction::Record { polish_template_id } => ShortcutAction::Record {
                polish_template_id: copy_opt_string(polish_template_id),
            },
        }
    }

    /// The template the action polishes with.
    pub open spec fn template_id(self) -> Option<String> {
        match self {
            ShortcutAction::Record { polish_template_id } => polish_template_id,
        }
    }
}

impl ShortcutProfile {
    /// A copy of the profile.
    pub fn duplicate(&self) -> (r: Self)
        ensures
            r == *self,
    {
        ShortcutProfile {
            hotkey: self.hotkey.clone(),
            trigger_mode: self.trigger_mode,
            action: self.action.duplicate(),
        }
    }
}

impl ShortcutProfilesMap {
    /// The profiles of a fresh installation: dictation on Shift+Space while
    /// held, riff without hotkey toggling with the filler template, no custom
    /// profile.
    pub fn default_profiles() -> (m: Self)
        ensures
            m.dictate.hotkey@ == "Shift+Space"@,
            m.dictate.trigger_mode == ShortcutTriggerMode::Hold,
            m.dictate.action.template_id() is None,
            m.riff.hotkey@ == ""@,
            m.riff.trigger_mode == ShortcutTriggerMode::Toggle,
            m.riff.action.template_id() matches Some(t) && t@ == "filler"@,
            m.custom is None,
    {
        ShortcutProfilesMap {
            dictate: ShortcutProfile {
                hotkey: owned("Shift+Space"),
                trigger_mode: ShortcutTriggerMode::Hold,
                action: ShortcutAction::Record { polish_template_id: None },
            },
            riff: ShortcutProfile {
                hotkey: owned(""),
                trigger_mode: ShortcutTriggerMode::Toggle,
                action: ShortcutAction::Record { polish_template_id: Some(owned("filler")) },
            },
            custom: None,
        }
    }

    /// A copy of the profiles.
    pub fn duplicate(&self) -> (r: Self)
        ensures
            r == *self,
    {
        ShortcutProfilesMap {
            dictate: self.dictate.duplicate(),
            riff: self.riff.duplicate(),
            custom: match &self.custom {
                Some(p) => Some(p.duplicate()),
                None => None,
            },
        }
    }
}

/// Whether a shortcut was pressed or released.
#[derive(Debug, Clone, Copy, PartialEq, Eq, Structural)]
pub enum ShortcutState {
    Pressed,
    Released,
}

/// The recording mode set for the primary shortcut.
#[derive(Debug, Clone, Copy, PartialEq, Eq, Structural)]
pub enum ShortcutRecordingMode {
    Hold,
    Toggle,
}

impl ShortcutRecordingMode {
    /// `"hold"`, in any ASCII case, is hold mode; anything else is toggle mode.
    pub fn from_setting(recording_mode: &str) -> (m: Self)
        ensures
            m == (if eq_ignore_ascii_case(recording_mode@, "hold"@) {
                ShortcutRecordingMode::Hold
            } else {
                ShortcutRecordingMode::Toggle
            }),
    {
        if str_eq_ignore_ascii_case(recording_mode, "hold") {
            ShortcutRecordingMode::Hold
        } else {
            ShortcutRecordingMode::Toggle
        }
    }
}

/// What the primary shortcut sees when it fires.
#[derive(Debug, Clone, Copy, PartialEq, Eq, Structural)]
pub struct PrimaryShortcutContext {
    pub capture_active: bool,
    pub is_recording: bool,
    pub recording_mode: ShortcutRecordingMode,
}

/// What the primary shortcut does.
#[derive(Debug, Clone, Copy, PartialEq, Eq, Structural)]
pub enum PrimaryShortcutAction {
    Ignore,
    StartRecording,
    StopRecording,
}

/// The context from the recording flag, the mode setting and whether a
/// hotkey is being captured.
pub fn primary_shortcut_context(is_recording: bool, recording_mode: &str, capture_active: bool) -> (c:
    PrimaryShortcutContext)
    ensures
        c.capture_active == capture_active,
        c.is_recording == is_recording,
        c.recording_mode == (if eq_ignore_ascii_case(recording_mode@, "hold"@) {
            ShortcutRecordingMode::Hold
        } else {
            ShortcutRecordingMode::Toggle
        }),
{
    PrimaryShortcutContext {
        capture_active,
        is_recording,
        recording_mode: ShortcutRecordingMode::from_setting(recording_mode),
    }
}

/// The primary shortcut's action: nothing during hotkey capture; in hold
/// mode, press starts an idle recorder and release stops a running one; in
/// toggle mode, press flips recording and release does nothing.
pub open spec fn primary_action_spec(c: PrimaryShortcutContext, s: ShortcutState) -> PrimaryShortcutAction {
    if c.capture_active {
        PrimaryShortcutAction::Ignore
    } else {
        match c.recording_mode {
            ShortcutRecordingMode::Hold => if s == ShortcutState::Pressed && !c.is_recording {
                PrimaryShortcutAction::StartRecording
            } else if s == ShortcutState::Released && c.is_recording {
                PrimaryShortcutAction::StopRecording
            } else {
                PrimaryShortcutAction::Ignore
            },
            ShortcutRecordingMode::Toggle => if s != ShortcutState::Pressed {
                PrimaryShortcutAction::Ignore
            } else if c.is_recording {
                PrimaryShortcutAction::StopRecording
            } else {
                PrimaryShortcutAction::StartRecording
            },
        }
    }
}

/// Decides what the primary shortcut does.
pub fn primary_shortcut_action(context: PrimaryShortcutContext, shortcut_state: ShortcutState) -> (a:
    PrimaryShortcutAction)
    ensures
        a == primary_action_spec(context, shortcut_state),
{
    if context.capture_active {
        return PrimaryShortcutAction::Ignore;
    }
    match context.recording_mode {
        ShortcutRecordingMode::Hold => match (shortcut_state, context.is_recording) {
            (ShortcutState::Pressed, false) => PrimaryShortcutAction::StartRecording,
            (ShortcutState::Released, true) => PrimaryShortcutAction::StopRecording,
            _ => PrimaryShortcutAction::Ignore,
        },
        ShortcutRecordingMode::Toggle => {
            if shortcut_state != ShortcutState::Pressed {
                return PrimaryShortcutAction::Ignore;
            }
            if context.is_recording {
                PrimaryShortcutAction::StopRecording
            } else {
                PrimaryShortcutAction::StartRecording
            }
        },
    }
}

/// Law: the primary shortcut never acts while a hotkey is being captured,
/// never starts a recording that is running, and never stops one that is not.
pub proof fn lemma_primary_action_is_consistent(c: PrimaryShortcutContext, s: ShortcutState)
    ensures
        c.capture_active ==> primary_action_spec(c, s) == PrimaryShortcutAction::Ignore,
        primary_action_spec(c, s) == PrimaryShortcutAction::StartRecording ==> !c.is_recording,
        primary_action_spec(c, s) == PrimaryShortcutAction::StopRecording ==> c.is_recording,
        primary_action_spec(c, s) != PrimaryShortcutAction::Ignore ==> !c.capture_active,
{
}

/// The task that owns the cancel hotkey's release: the current task while a
/// session is active.
pub fn capture_cancel_hotkey_release_owner(is_recording: bool, is_transcribing: bool, task_id: u64) -> (r:
    Option<u64>)
    ensures
        r == (if is_recording || is_transcribing {
            Some(task_id)
        } else {
            None
        }),
{
    if is_recording || is_transcribing {
        Some(task_id)
    } else {
        None
    }
}

/// Cancel hotkeys are unregistered unless the request names a stale owner.
pub fn should_unregister_cancel_hotkeys(
    current_owner_task_id: Option<u64>,
    requested_owner_task_id: Option<u64>,
) -> (b: bool)
    ensures
        b == (requested_owner_task_id is None || current_owner_task_id == requested_owner_task_id),
{
    match requested_owner_task_id {
        None => true,
        Some(r) => match current_owner_task_id {
            Some(c) => c == r,
            None => false,
        },
    }
}

/// The pending owner whose cancel hotkeys may now be released: only once the
/// session is idle.
pub fn cancel_hotkey_release_unregister_owner(
    is_recording: bool,
    is_transcribing: bool,
    pending_owner_task_id: Option<u64>,
) -> (r: Option<u64>)
    ensures
        r == (if is_recording || is_transcribing {
            None
        } else {
            pending_owner_task_id
        }),
{
    if is_recording || is_transcribing {
        None
    } else {
        pending_owner_task_id
    }
}

// ---------------------------------------------------------------------------
// Profile management
// ---------------------------------------------------------------------------

/// The profile keys the profile commands accept: `"dictate"`, `"chat"` (the
/// riff profile) and `"custom"`.
pub open spec fn is_profile_key(key: Seq<char>) -> bool {
    key == "dictate"@ || key == "chat"@ || key == "custom"@
}

/// The three profile keys are distinct.
proof fn lemma_profile_keys_distinct()
    ensures
        "dictate"@ != "chat"@,
        "dictate"@ != "custom"@,
        "chat"@ != "custom"@,
{
    reveal_strlit("dictate");
    reveal_strlit("chat");
    reveal_strlit("custom");
    assert("dictate"@.len() == 7);
    assert("chat"@.len() == 4);
    assert("custom"@.len() == 6);
}

/// Accepts a known profile key; an unknown key is an error naming it.
pub fn validate_profile_key(key: &str) -> (r: Result<(), String>)
    ensures
        r is Ok <==> is_profile_key(key@),
        r matches Err(e) ==> e@ == "unknown_profile_key: "@ + key@,
{
    if str_eq(key, "dictate") || str_eq(key, "chat") || str_eq(key, "custom") {
        Ok(())
    } else {
        let mut e = owned("unknown_profile_key: ");
        crate::text::append_str(&mut e, key);
        Err(e)
    }
}

/// Checks a profile update: dictation never polishes, the riff profile
/// always does, the custom profile may do either.
pub fn validate_profile_constraints(key: &str, profile: &ShortcutProfile) -> (r: Result<(), String>)
    ensures
        key@ == "dictate"@ ==> (r is Ok <==> profile.action.template_id() is None) && (r matches Err(
            e,
        ) ==> e@ == "cannot_update_dictate_template"@),
        key@ == "chat"@ ==> (r is Ok <==> profile.action.template_id() is Some) && (r matches Err(
            e,
        ) ==> e@ == "chat_template_cannot_be_null"@),
        key@ == "custom"@ ==> r is Ok,
        !is_profile_key(key@) ==> (r matches Err(e) && e@ == "unknown_profile_key: "@ + key@),
{
    proof {
        lemma_profile_keys_distinct();
    }
    match &profile.action {
        ShortcutAction::Record { polish_template_id } => {
            if str_eq(key, "dictate") {
                if polish_template_id.is_some() {
                    return Err(owned("cannot_update_dictate_template"));
                }
            } else if str_eq(key, "chat") {
                if polish_template_id.is_none() {
                    return Err(owned("chat_template_cannot_be_null"));
                }
            } else if str_eq(key, "custom") {
            } else {
                let mut e = owned("unknown_profile_key: ");
                crate::text::append_str(&mut e, key);
                return Err(e);
            }
        },
    }
    Ok(())
}

/// The hotkey is free for profile `exclude_key`: empty, or used by no other
/// profile.  The first profile that holds it is named in the error.
pub open spec fn hotkey_conflict_spec(
    profiles: ShortcutProfilesMap,
    exclude_key: Seq<char>,
    hotkey: Seq<char>,
) -> Option<Seq<char>> {
    if hotkey.len() == 0 {
        None
    } else if exclude_key != "dictate"@ && profiles.dictate.hotkey@ == hotkey {
        Some("hotkey_conflict:dictate"@)
    } else if exclude_key != "chat"@ && profiles.riff.hotkey@ == hotkey {
        Some("hotkey_conflict:chat"@)
    } else if profiles.custom matches Some(c) && exclude_key != "custom"@ && c.hotkey@ == hotkey {
        Some("hotkey_conflict:custom"@)
    } else {
        None
    }
}

/// Rejects a hotkey that another profile already uses.
pub fn validate_hotkey_uniqueness(
    profiles: &ShortcutProfilesMap,
    exclude_key: &str,
    hotkey: &str,
) -> (r: Result<(), String>)
    ensures
        match hotkey_conflict_spec(*profiles, exclude_key@, hotkey@) {
            None => r is Ok,
            Some(m) => (r matches Err(e) && e@ == m),
        },
{
    proof {
        lemma_profile_keys_distinct();
    }
    if hotkey.unicode_len() == 0 {
        return Ok(());
    }
    if !str_eq(exclude_key, "dictate") && str_eq(profiles.dictate.hotkey.as_str(), hotkey) {
        return Err(owned("hotkey_conflict:dictate"));
    }
    if !str_eq(exclude_key, "chat") && str_eq(profiles.riff.hotkey.as_str(), hotkey) {
        return Err(owned("hotkey_conflict:chat"));
    }
    if let Some(custom) = &profiles.custom {
        if !str_eq(exclude_key, "custom") && str_eq(custom.hotkey.as_str(), hotkey) {
            return Err(owned("hotkey_conflict:custom"));
        }
    }
    Ok(())
}

/// Stores a profile under its key; other keys change nothing.
pub fn update_profile_in_map(map: &mut ShortcutProfilesMap, key: &str, profile: ShortcutProfile)
    ensures
        final(map).dictate == (if key@ == "dictate"@ { profile } else { old(map).dictate }),
        final(map).riff == (if key@ == "chat"@ { profile } else { old(map).riff }),
        final(map).custom == (if key@ == "custom"@ { Some(profile) } else { old(map).custom }),
{
    proof {
        lemma_profile_keys_distinct();
    }
    if str_eq(key, "dictate") {
        map.dictate = profile;
    } else if str_eq(key, "chat") {
        map.riff = profile;
    } else if str_eq(key, "custom") {
        map.custom = Some(profile);
    }
}

/// The template a profile polishes with: none for dictation.
pub fn get_current_template_id(profiles: &ShortcutProfilesMap, profile_key: &str) -> (r: Option<String>)
    ensures
        r == (if profile_key@ == "chat"@ {
            profiles.riff.action.template_id()
        } else if profile_key@ == "custom"@ {
            match profiles.custom {
                Some(p) => p.action.template_id(),
                None => None,
            }
        } else {
            None
        }),
{
    proof {
        lemma_profile_keys_distinct();
    }
    if str_eq(profile_key, "dictate") {
        None
    } else if str_eq(profile_key, "chat") {
        match &profiles.riff.action {
            ShortcutAction::Record { polish_template_id } => copy_opt_string(polish_template_id),
        }
    } else if str_eq(profile_key, "custom") {
        match &profiles.custom {
            Some(p) => match &p.action {
                ShortcutAction::Record { polish_template_id } => copy_opt_string(polish_template_id),
            },
            None => None,
        }
    } else {
        None
    }
}

/// The trigger mode of a profile: toggle for a missing custom profile, hold
/// for an unknown key.
pub fn get_current_trigger_mode(profiles: &ShortcutProfilesMap, profile_key: &str) -> (m:
    ShortcutTriggerMode)
    ensures
        m == (if profile_key@ == "dictate"@ {
            profiles.dictate.trigger_mode
        } else if profile_key@ == "chat"@ {
            profiles.riff.trigger_mode
        } else if profile_key@ == "custom"@ {
            match profiles.custom {
                Some(p) => p.trigger_mode,
                None => ShortcutTriggerMode::Toggle,
            }
        } else {
            ShortcutTriggerMode::Hold
        }),
{
    proof {
        lemma_profile_keys_distinct();
    }
    if str_eq(profile_key, "dictate") {
        profiles.dictate.trigger_mode
    } else if str_eq(profile_key, "chat") {
        profiles.riff.trigger_mode
    } else if str_eq(profile_key, "custom") {
        match &profiles.custom {
            Some(p) => p.trigger_mode,
            None => ShortcutTriggerMode::Toggle,
        }
    } else {
        ShortcutTriggerMode::Hold
    }
}

} // verus!

verus! {

// ---------------------------------------------------------------------------
// Profile commands
// ---------------------------------------------------------------------------

/// What to do with a profile's global shortcut.
#[derive(Debug, Clone, Copy, PartialEq, Eq, Structural)]
pub enum ShortcutRegistration {
    /// Register the profile's hotkey.
    Register,
    /// Remove the profile's hotkey.
    Unregister,
}

/// Checks an update of the profile stored under `key`: the key must be
/// known, the profile must keep the key's template rule, and its hotkey must
/// be free.  A profile with a hotkey is registered, one without is removed.
pub fn plan_profile_update(profiles: &ShortcutProfilesMap, key: &str, profile: &ShortcutProfile) -> (r: Result<
    ShortcutRegistration,
    String,
>)
    ensures
        !is_profile_key(key@) ==> (r matches Err(e) && e@ == "unknown_profile_key: "@ + key@),
        is_profile_key(key@) && key@ == "dictate"@ && profile.action.template_id() is Some ==> (r matches Err(e)
            && e@ == "cannot_update_dictate_template"@),
        is_profile_key(key@) && key@ == "chat"@ && profile.action.template_id() is None ==> (r matches Err(e)
            && e@ == "chat_template_cannot_be_null"@),
        r is Ok <==> (is_profile_key(key@) && (key@ == "dictate"@ ==> profile.action.template_id() is None) && (
        key@ == "chat"@ ==> profile.action.template_id() is Some) && hotkey_conflict_spec(
            *profiles,
            key@,
            profile.hotkey@,
        ) is None),
        is_profile_key(key@) && (key@ == "dictate"@ ==> profile.action.template_id() is None) && (key@
            == "chat"@ ==> profile.action.template_id() is Some) ==> match hotkey_conflict_spec(
            *profiles,
            key@,
            profile.hotkey@,
        ) {
            Some(m) => r matches Err(e) && e@ == m,
            None => r is Ok,
        },
        r matches Ok(a) ==> (a == ShortcutRegistration::Register <==> profile.hotkey@.len() > 0),
{
    proof {
        lemma_profile_keys_distinct();
    }
    validate_profile_key(key)?;
    validate_profile_constraints(key, profile)?;
    validate_hotkey_uniqueness(profiles, key, profile.hotkey.as_str())?;
    if profile.hotkey.unicode_len() > 0 {
        Ok(ShortcutRegistration::Register)
    } else {
        Ok(ShortcutRegistration::Unregister)
    }
}

/// Checks the creation of the custom profile: there can be only one, and
/// its hotkey must be free.  The answer says whether to register a hotkey.
pub fn plan_custom_profile_creation(profiles: &ShortcutProfilesMap, profile: &ShortcutProfile) -> (r: Result<
    bool,
    String,
>)
    ensures
        profiles.custom is Some ==> (r matches Err(e) && e@ == "custom_profile_already_exists"@),
        profiles.custom is None ==> match hotkey_conflict_spec(*profiles, "custom"@, profile.hotkey@) {
            Some(m) => r matches Err(e) && e@ == m,
            None => r == Ok::<bool, String>(profile.hotkey@.len() > 0),
        },
{
    if profiles.custom.is_some() {
        return Err(owned("custom_profile_already_exists"));
    }
    validate_hotkey_uniqueness(profiles, "custom", profile.hotkey.as_str())?;
    Ok(profile.hotkey.unicode_len() > 0)
}

/// Removes the custom profile; there must be one.
pub fn delete_custom_profile(profiles: &mut ShortcutProfilesMap) -> (r: Result<(), String>)
    ensures
        old(profiles).custom is None ==> (r matches Err(e) && e@ == "custom_profile_not_found"@) && *final(profiles)
            == *old(profiles),
        old(profiles).custom is Some ==> r is Ok && final(profiles).custom is None && final(profiles).dictate
            == old(profiles).dictate && final(profiles).riff == old(profiles).riff,
{
    if profiles.custom.is_none() {
        return Err(owned("custom_profile_not_found"));
    }
    profiles.custom = None;
    Ok(())
}

/// The profile a captured hotkey makes for `profile_key`: the key must be
/// known and the hotkey free; the profile keeps the key's trigger mode and
/// template.
pub fn captured_hotkey_profile(profiles: &ShortcutProfilesMap, profile_key: &str, hotkey: String) -> (r: Result<
    ShortcutProfile,
    String,
>)
    ensures
        !is_profile_key(profile_key@) ==> (r matches Err(e) && e@ == "invalid_profile_key: "@ + profile_key@),
        is_profile_key(profile_key@) ==> match hotkey_conflict_spec(*profiles, profile_key@, hotkey@) {
            Some(m) => r matches Err(e) && e@ == m,
            None => r matches Ok(p) && {
                &&& p.hotkey == hotkey
                &&& p.trigger_mode == (if profile_key@ == "dictate"@ {
                    profiles.dictate.trigger_mode
                } else if profile_key@ == "chat"@ {
                    profiles.riff.trigger_mode
                } else {
                    match profiles.custom {
                        Some(c) => c.trigger_mode,
                        None => ShortcutTriggerMode::Toggle,
                    }
                })
                &&& p.action.template_id() == (if profile_key@ == "chat"@ {
                    profiles.riff.action.template_id()
                } else if profile_key@ == "custom"@ {
                    match profiles.custom {
                        Some(c) => c.action.template_id(),
                        None => None,
                    }
                } else {
                    None
                })
            },
        },
{
    proof {
        lemma_profile_keys_distinct();
    }
    if validate_profile_key(profile_key).is_err() {
        let mut e = owned("invalid_profile_key: ");
        crate::text::append_str(&mut e, profile_key);
        return Err(e);
    }
    validate_hotkey_uniqueness(profiles, profile_key, hotkey.as_str())?;
    let trigger_mode = get_current_trigger_mode(profiles, profile_key);
    let template = get_current_template_id(profiles, profile_key);
    Ok(ShortcutProfile {
        hotkey,
        trigger_mode,
        action: ShortcutAction::Record { polish_template_id: template },
    })
}

} // verus!

verus! {

/// The profiles whose shortcuts are registered at startup, with the key
/// each is registered under: dictation, riff and custom, each only when it
/// has a hotkey.
pub open spec fn startup_registrations_spec(m: ShortcutProfilesMap) -> Seq<(Seq<char>, ShortcutProfile)> {
    let a = if m.dictate.hotkey@.len() > 0 {
        seq![("dictate"@, m.dictate)]
    } else {
        seq![]
    };
    let b = if m.riff.hotkey@.len() > 0 {
        seq![("riff"@, m.riff)]
    } else {
        seq![]
    };
    let c = match m.custom {
        Some(p) => if p.hotkey@.len() > 0 {
            seq![("custom"@, p)]
        } else {
            seq![]
        },
        None => seq![],
    };
    a + b + c
}

/// The shortcuts to register at startup, in order.
pub fn startup_registrations(profiles: &ShortcutProfilesMap) -> (v: Vec<(&'static str, ShortcutProfile)>)
    ensures
        v@.map_values(|e: (&'static str, ShortcutProfile)| (e.0@, e.1)) == startup_registrations_spec(*profiles),
{
    let mut v: Vec<(&'static str, ShortcutProfile)> = Vec::new();
    if profiles.dictate.hotkey.unicode_len() > 0 {
        v.push(("dictate", profiles.dictate.duplicate()));
    }
    let ghost va = v@;
    if profiles.riff.hotkey.unicode_len() > 0 {
        v.push(("riff", profiles.riff.duplicate()));
    }
    let ghost vb = v@;
    if let Some(p) = &profiles.custom {
        if p.hotkey.unicode_len() > 0 {
            v.push(("custom", p.duplicate()));
        }
    }
    proof {
        let f = |e: (&'static str, ShortcutProfile)| (e.0@, e.1);
        let m = *profiles;
        let a = if m.dictate.hotkey@.len() > 0 {
            seq![("dictate"@, m.dictate)]
        } else {
            seq![]
        };
        let b = if m.riff.hotkey@.len() > 0 {
            seq![("riff"@, m.riff)]
        } else {
            seq![]
        };
        assert(va.map_values(f) == a);
        assert(vb.map_values(f) == a + b);
        assert(v@.map_values(f) == startup_registrations_spec(m));
    }
    v
}

} // verus!

verus! {

/// No two profiles share a hotkey, empty hotkeys aside.
pub open spec fn hotkeys_distinct(m: ShortcutProfilesMap) -> bool {
    &&& (m.dictate.hotkey@.len() > 0 ==> m.dictate.hotkey@ != m.riff.hotkey@)
    &&& match m.custom {
        Some(c) => c.hotkey@.len() > 0 ==> c.hotkey@ != m.dictate.hotkey@ && c.hotkey@ != m.riff.hotkey@,
        None => true,
    }
    &&& (m.riff.hotkey@.len() > 0 ==> m.riff.hotkey@ != m.dictate.hotkey@)
}

/// Law: storing a profile whose hotkey passed the uniqueness check keeps the
/// hotkeys of all profiles distinct.
pub proof fn lemma_checked_update_keeps_hotkeys_distinct(
    before: ShortcutProfilesMap,
    after: ShortcutProfilesMap,
    key: Seq<char>,
    profile: ShortcutProfile,
)
    requires
        hotkeys_distinct(before),
        is_profile_key(key),
        hotkey_conflict_spec(before, key, profile.hotkey@) is None,
        after.dictate == (if key == "dictate"@ { profile } else { before.dictate }),
        after.riff == (if key == "chat"@ { profile } else { before.riff }),
        after.custom == (if key == "custom"@ { Some(profile) } else { before.custom }),
    ensures
        hotkeys_distinct(after),
{
    lemma_profile_keys_distinct();
}

} // verus!
