//! How a transcript is polished: with which prompt, by which engine, and
//! what is kept of the engine's answer.  Running the engines is the
//! caller's work.
use vstd::prelude::*;

use crate::polish::manager::{engine_for_model_spec, model_filename_spec, local_model_file_spec, UnifiedPolishManager};
use crate::polish::templates::{find_template, get_template_by_id, template_rows};
use crate::polish::traits::{PolishEngineType, PolishResult};
use crate::polish::DEFAULT_POLISH_PROMPT;
use crate::settings::app_settings::{active_stt_config_spec, is_default_settings, AppSettings};
use crate::settings::configs::{config_lookup, find_config, CloudProviderConfig, CloudSttConfig, CustomPolishTemplate};
use crate::text::{owned, str_eq};
use crate::transcription::polish_guard::{accept_polish_result, reject_spec};

verus! {

/// The prompt of the first user template with this id.
pub open spec fn find_custom_prompt(t: Seq<CustomPolishTemplate>, id: Seq<char>) -> Option<Seq<char>>
    decreases t.len(),
{
    if t.len() == 0 {
        None
    } else if t[0].id@ == id {
        Some(t[0].system_prompt@)
    } else {
        find_custom_prompt(t.drop_first(), id)
    }
}

/// The system prompt of a template: a built-in template's, else the first
/// user template's with that id, else the clean-dictation template's.
pub open spec fn template_prompt_spec(id: Seq<char>, custom: Seq<CustomPolishTemplate>) -> Seq<char> {
    match find_template(template_rows(), id) {
        Some(row) => row.3,
        None => match find_custom_prompt(custom, id) {
            Some(p) => p,
            None => match find_template(template_rows(), "filler"@) {
                Some(row) => row.3,
                None => DEFAULT_POLISH_PROMPT@,
            },
        },
    }
}

/// The prompt of the first user template with the id.
fn custom_prompt(custom: &Vec<CustomPolishTemplate>, id: &str) -> (r: Option<String>)
    ensures
        match r {
            Some(p) => find_custom_prompt(custom@, id@) == Some(p@),
            None => find_custom_prompt(custom@, id@) is None,
        },
{
    let mut i: usize = 0;
    assert(custom@.subrange(0, custom@.len() as int) == custom@);
    while i < custom.len()
        invariant
            i <= custom@.len(),
            find_custom_prompt(custom@, id@) == find_custom_prompt(custom@.subrange(i as int, custom@.len() as int), id@),
        decreases custom.len() - i,
    {
        let ghost rest = custom@.subrange(i as int, custom@.len() as int);
        assert(rest[0] == custom@[i as int]);
        if str_eq(custom[i].id.as_str(), id) {
            return Some(custom[i].system_prompt.clone());
        }
        assert(rest.drop_first() == custom@.subrange(i + 1, custom@.len() as int));
        i = i + 1;
    }
    assert(custom@.subrange(i as int, custom@.len() as int).len() == 0);
    None
}

/// The system prompt a template id stands for.
pub fn resolve_template_prompt(template_id: &str, custom_templates: &Vec<CustomPolishTemplate>) -> (p: String)
    ensures
        p@ == template_prompt_spec(template_id@, custom_templates@),
{
    match get_template_by_id(template_id) {
        Some(t) => owned(t.system_prompt),
        None => match custom_prompt(custom_templates, template_id) {
            Some(p) => p,
            None => match get_template_by_id("filler") {
                Some(t) => owned(t.system_prompt),
                None => owned(DEFAULT_POLISH_PROMPT),
            },
        },
    }
}

/// How a transcript will be polished.
#[derive(Debug)]
pub enum PolishPlan {
    /// No template was chosen: the transcript is kept.
    Skip,
    /// Polish with the active cloud provider.
    Cloud { provider: String, config: CloudProviderConfig, system_prompt: String, language: String },
    /// Polish with the local model.
    Local { system_prompt: String, language: String, model_id: String },
}

/// The plan for a transcript: nothing without a template; the cloud when
/// the active provider has a usable stored configuration (an API key and a
/// model), as the global polish configuration reads it; the local model
/// otherwise.
pub open spec fn polish_plan_spec(s: AppSettings, template_id: Option<Seq<char>>, p: PolishPlan) -> bool {
    match template_id {
        None => p is Skip,
        Some(id) => {
            let prompt = template_prompt_spec(id, s.polish_custom_templates@);
            match config_lookup(s.cloud_polish_configs@, s.active_cloud_polish_provider@) {
                Some(c) if c.is_usable() => p matches PolishPlan::Cloud {
                    provider,
                    config,
                    system_prompt,
                    language,
                } && provider@ == s.active_cloud_polish_provider@ && config == c && system_prompt@ == prompt
                    && language == s.stt_engine_language,
                _ => p matches PolishPlan::Local { system_prompt, language, model_id } && system_prompt@
                    == prompt && language == s.stt_engine_language && model_id == s.polish_model,
            }
        },
    }
}

/// Plans the polishing of a transcript under a template.
pub fn plan_polish(settings: &AppSettings, template_id: Option<&str>) -> (p: PolishPlan)
    ensures
        polish_plan_spec(
            *settings,
            match template_id {
                Some(t) => Some(t@),
                None => None,
            },
            p,
        ),
{
    let id = match template_id {
        Some(t) => t,
        None => return PolishPlan::Skip,
    };
    let system_prompt = resolve_template_prompt(id, &settings.polish_custom_templates);
    let language = settings.stt_engine_language.clone();
    match find_config(&settings.cloud_polish_configs, settings.active_cloud_polish_provider.as_str()) {
        Some(i) => {
            let cfg = &settings.cloud_polish_configs[i].1;
            if cfg.api_key.unicode_len() > 0 && cfg.model.unicode_len() > 0 {
                return PolishPlan::Cloud {
                    provider: settings.active_cloud_polish_provider.clone(),
                    config: cfg.duplicate(),
                    system_prompt,
                    language,
                };
            }
        },
        None => {},
    }
    PolishPlan::Local { system_prompt, language, model_id: settings.polish_model.clone() }
}

/// Where a local polish can run.
#[derive(Debug)]
pub enum LocalPolishTarget {
    /// No local model is chosen.
    NoModel,
    /// No engine knows the model.
    UnknownEngine,
    /// The model's file is not downloaded.
    NotDownloaded,
    /// The engine and the model file to use.
    Ready { engine: PolishEngineType, model_filename: String },
}

/// Where the local model can run: nowhere without a model id or an engine
/// for it; nowhere until its file is among the downloaded files.
pub open spec fn local_target_spec(model_id: Seq<char>, present: Seq<String>, t: LocalPolishTarget) -> bool {
    if model_id.len() == 0 {
        t is NoModel
    } else {
        match engine_for_model_spec(model_id) {
            None => t is UnknownEngine,
            Some(e) => match (model_filename_spec(e, model_id), local_model_file_spec(e, model_id)) {
                (Some(f), Some(lf)) if exists|i: int| 0 <= i < present.len() && #[trigger] present[i]@ == lf => t matches LocalPolishTarget::Ready {
                    engine,
                    model_filename,
                } && engine == e && model_filename@ == f,
                _ => t is NotDownloaded,
            },
        }
    }
}

/// Finds the engine and file for the local model.
pub fn local_polish_target(manager: &UnifiedPolishManager, model_id: &str, present_files: &Vec<String>) -> (t:
    LocalPolishTarget)
    ensures
        local_target_spec(model_id@, present_files@, t),
{
    if model_id.unicode_len() == 0 {
        return LocalPolishTarget::NoModel;
    }
    match UnifiedPolishManager::get_engine_by_model_id(model_id) {
        None => LocalPolishTarget::UnknownEngine,
        Some(engine) => match manager.get_model_filename(engine, model_id) {
            Some(f) => if manager.is_model_downloaded(engine, model_id, present_files) {
                LocalPolishTarget::Ready { engine, model_filename: f }
            } else {
                LocalPolishTarget::NotDownloaded
            },
            None => LocalPolishTarget::NotDownloaded,
        },
    }
}

/// What is kept of a polish attempt: a non-empty answer that does not
/// answer a dictated question, with its time; otherwise the transcript with
/// no polish time.
pub open spec fn polish_outcome_spec(transcript: String, result: Result<PolishResult, String>, r: (String, u64)) -> bool {
    match result {
        Ok(p) if p.text@.len() > 0 => if reject_spec(transcript@, p.text@) {
            r.0 == transcript && r.1 == 0
        } else {
            r.0 == p.text && r.1 == p.total_ms
        },
        _ => r.0 == transcript && r.1 == 0,
    }
}

/// Keeps the polished text or falls back to the transcript.
pub fn polish_outcome(task_id: u64, transcript: String, result: Result<PolishResult, String>, context: &str) -> (r: (
    String,
    u64,
))
    ensures
        polish_outcome_spec(transcript, result, r),
{
    match result {
        Ok(p) => if p.text.unicode_len() > 0 {
            accept_polish_result(task_id, transcript, p.text, p.total_ms, context)
        } else {
            (transcript, 0)
        },
        Err(_) => (transcript, 0),
    }
}

/// Law: polishing never loses the transcript: what is kept is either the
/// transcript itself with no polish time, or a non-empty engine answer.
pub proof fn lemma_polish_keeps_text(transcript: String, result: Result<PolishResult, String>, r: (String, u64))
    requires
        polish_outcome_spec(transcript, result, r),
    ensures
        (r.0 == transcript && r.1 == 0) || (result matches Ok(p) && r.0 == p.text && p.text@.len() > 0),
{
}


/// Law: with the settings a fresh install starts from, nothing goes to the
/// cloud: cloud transcription is off, and since no cloud provider has a
/// stored configuration yet, a polish is planned for the local model or
/// skipped.
pub proof fn lemma_default_settings_stay_local(
    s: AppSettings,
    template_id: Option<Seq<char>>,
    p: PolishPlan,
    stt: CloudSttConfig,
)
    requires
        is_default_settings(s),
        polish_plan_spec(s, template_id, p),
        active_stt_config_spec(s, stt),
    ensures
        !(p is Cloud),
        !stt.enabled,
{
}

} // verus!
