//! The Gemma polish engine: what it checks before running the model.
//! Running the model is the caller's work.
use vstd::prelude::*;

use crate::polish::common::EngineConfig;
use crate::polish::gemma::DEFAULT_POLISH_PROMPT;
use crate::polish::traits::{window_context_prompt, PolishEngineType, PolishRequest};
use crate::text::{append_str, owned};

verus! {

/// The local engine for Gemma models.
#[derive(Debug)]
pub struct GemmaPolishEngine;

/// What the local model is run with.
#[derive(Debug)]
pub struct LocalPolishJob {
    pub model_name: String,
    pub text: String,
    pub system_prompt: String,
    pub language: String,
    pub default_prompt: &'static str,
}

impl GemmaPolishEngine {
    /// The engine.
    pub fn new() -> (e: Self) {
        GemmaPolishEngine
    }

    /// This engine is the Gemma engine.
    pub fn engine_type(&self) -> (t: PolishEngineType)
        ensures
            t == PolishEngineType::Gemma,
    {
        PolishEngineType::Gemma
    }

    /// How the shared polishing code treats Gemma's output.
    pub fn engine_config(&self) -> (c: EngineConfig)
        ensures
            c.log_prefix@ == "polish:gemma"@,
            !c.strip_think_tags,
    {
        EngineConfig { log_prefix: "polish:gemma", strip_think_tags: false }
    }

    /// Checks a request before the model runs: it must name a model, and
    /// the model's file must exist.  The model is run with the request's
    /// text, effective prompt and language, and Gemma's default prompt.
    pub fn prepare(&self, request: &PolishRequest, model_exists: bool) -> (r: Result<LocalPolishJob, String>)
        ensures
            match request.model_name {
                None => r matches Err(e) && e@ == "Model name required"@,
                Some(m) => if !model_exists {
                    r matches Err(e) && e@ == "Model not found: "@ + m@
                } else {
                    r matches Ok(job) && {
                        &&& job.model_name == m
                        &&& job.text == request.text
                        &&& job.system_prompt@ == (match request.system_context.window_context {
                            Some(ctx) if ctx@.len() > 0 => window_context_prompt(ctx@, request.system_context.system_prompt@),
                            _ => request.system_context.system_prompt@,
                        })
                        &&& job.language == request.language
                        &&& job.default_prompt == DEFAULT_POLISH_PROMPT
                    }
                },
            },
    {
        let model_name = match &request.model_name {
            Some(m) => m.clone(),
            None => return Err(owned("Model name required")),
        };
        if !model_exists {
            let mut e = owned("Model not found: ");
            append_str(&mut e, model_name.as_str());
            return Err(e);
        }
        Ok(LocalPolishJob {
            model_name,
            text: request.text.clone(),
            system_prompt: request.system_context.effective_prompt(),
            language: request.language.clone(),
            default_prompt: DEFAULT_POLISH_PROMPT,
        })
    }
}

impl Default for GemmaPolishEngine {
    fn default() -> (e: Self) {
        GemmaPolishEngine::new()
    }
}

} // verus!
