//! Engine kinds, requests and results of text polishing.
use vstd::prelude::*;

use crate::text::{append_str, copy_string, owned, str_eq, to_lowercase, unicode_lowercase};

verus! {

/// The engines that can polish text.
#[derive(Debug, Clone, Copy, PartialEq, Eq, Structural, Hash)]
pub enum PolishEngineType {
    Qwen,
    Lfm,
    Gemma,
    Cloud,
}

/// The name of an engine kind.
pub open spec fn engine_name(t: PolishEngineType) -> Seq<char> {
    match t {
        PolishEngineType::Qwen => "qwen"@,
        PolishEngineType::Lfm => "lfm"@,
        PolishEngineType::Gemma => "gemma"@,
        PolishEngineType::Cloud => "cloud"@,
    }
}

/// The engine kind a lowercase name denotes.
pub open spec fn engine_of_name(s: Seq<char>) -> Option<PolishEngineType> {
    if s == "qwen"@ {
        Some(PolishEngineType::Qwen)
    } else if s == "lfm"@ {
        Some(PolishEngineType::Lfm)
    } else if s == "gemma"@ {
        Some(PolishEngineType::Gemma)
    } else if s == "cloud"@ {
        Some(PolishEngineType::Cloud)
    } else {
        None
    }
}

impl PolishEngineType {
    /// The lowercase name of the engine kind.
    pub fn as_str(&self) -> (s: &'static str)
        ensures
            s@ == engine_name(*self),
    {
        match self {
            PolishEngineType::Qwen => "qwen",
            PolishEngineType::Lfm => "lfm",
            PolishEngineType::Gemma => "gemma",
            PolishEngineType::Cloud => "cloud",
        }
    }

    /// Every engine kind, in declaration order.
    pub fn all() -> (v: Vec<PolishEngineType>)
        ensures
            v@ == seq![
                PolishEngineType::Qwen,
                PolishEngineType::Lfm,
                PolishEngineType::Gemma,
                PolishEngineType::Cloud,
            ],
    {
        vec![
            PolishEngineType::Qwen,
            PolishEngineType::Lfm,
            PolishEngineType::Gemma,
            PolishEngineType::Cloud,
        ]
    }

    /// Parses an engine kind, ignoring case; an unknown name is an error
    /// naming it.
    pub fn parse(s: &str) -> (r: Result<PolishEngineType, String>)
        ensures
            match r {
                Ok(t) => engine_of_name(unicode_lowercase(s@)) == Some(t),
                Err(e) => engine_of_name(unicode_lowercase(s@)) is None && e@
                    == "Unknown polish engine type: "@ + s@,
            },
    {
        let lower = to_lowercase(s);
        let l = lower.as_str();
        if str_eq(l, "qwen") {
            Ok(PolishEngineType::Qwen)
        } else if str_eq(l, "lfm") {
            Ok(PolishEngineType::Lfm)
        } else if str_eq(l, "gemma") {
            Ok(PolishEngineType::Gemma)
        } else if str_eq(l, "cloud") {
            Ok(PolishEngineType::Cloud)
        } else {
            let mut e = owned("Unknown polish engine type: ");
            append_str(&mut e, s);
            Err(e)
        }
    }
}

impl std::str::FromStr for PolishEngineType {
    type Err = String;

    fn from_str(s: &str) -> (r: Result<Self, Self::Err>)
        ensures
            match r {
                Ok(t) => engine_of_name(unicode_lowercase(s@)) == Some(t),
                Err(e) => engine_of_name(unicode_lowercase(s@)) is None && e@
                    == "Unknown polish engine type: "@ + s@,
            },
    {
        PolishEngineType::parse(s)
    }
}

/// Text prepended to the system prompt when the focused window's text is known.
pub open spec fn window_context_prompt(ctx: Seq<char>, system_prompt: Seq<char>) -> Seq<char> {
    "The user is currently looking at a window containing the following text:\n\"\"\"\n"@ + ctx
        + "\n\"\"\"\n\n"@ + system_prompt
}

/// Context handed to an engine: the assembled system prompt and, optionally,
/// the text of the focused window.
#[derive(Debug)]
pub struct SystemContext {
    pub system_prompt: String,
    pub window_context: Option<String>,
}

impl SystemContext {
    /// A context with a system prompt and no window text.
    pub fn new(system_prompt: &str) -> (c: Self)
        ensures
            c.system_prompt@ == system_prompt@,
            c.window_context is None,
    {
        SystemContext { system_prompt: owned(system_prompt), window_context: None }
    }

    /// The same context with the window text set.
    pub fn with_window_context(self, ctx: &str) -> (c: Self)
        ensures
            c.system_prompt == self.system_prompt,
            c.window_context matches Some(w) && w@ == ctx@,
    {
        let mut c = self;
        c.window_context = Some(owned(ctx));
        c
    }

    /// The system prompt, preceded by the window text when there is some.
    pub fn effective_prompt(&self) -> (p: String)
        ensures
            p@ == (match self.window_context {
                Some(ctx) if ctx@.len() > 0 => window_context_prompt(ctx@, self.system_prompt@),
                _ => self.system_prompt@,
            }),
    {
        match &self.window_context {
            Some(ctx) if ctx.as_str().unicode_len() > 0 => {
                let mut p = owned(
                    "The user is currently looking at a window containing the following text:\n\"\"\"\n",
                );
                append_str(&mut p, ctx.as_str());
                append_str(&mut p, "\n\"\"\"\n\n");
                append_str(&mut p, self.system_prompt.as_str());
                p
            },
            _ => copy_string(&self.system_prompt),
        }
    }
}

/// What to polish, with which prompt, language and model.
#[derive(Debug)]
pub struct PolishRequest {
    pub text: String,
    pub system_context: SystemContext,
    pub language: String,
    pub model_name: Option<String>,
}

impl PolishRequest {
    /// A request without model or window text.
    pub fn new(text: &str, system_prompt: &str, language: &str) -> (r: Self)
        ensures
            r.text@ == text@,
            r.system_context.system_prompt@ == system_prompt@,
            r.system_context.window_context is None,
            r.language@ == language@,
            r.model_name is None,
    {
        PolishRequest {
            text: owned(text),
            system_context: SystemContext::new(system_prompt),
            language: owned(language),
            model_name: None,
        }
    }

    /// The same request for a named model.
    pub fn with_model(self, model_name: &str) -> (r: Self)
        ensures
            r.text == self.text,
            r.system_context == self.system_context,
            r.language == self.language,
            r.model_name matches Some(m) && m@ == model_name@,
    {
        let mut r = self;
        r.model_name = Some(owned(model_name));
        r
    }

    /// The same request with the window text set.
    pub fn with_window_context(self, ctx: &str) -> (r: Self)
        ensures
            r.text == self.text,
            r.system_context.system_prompt == self.system_context.system_prompt,
            r.system_context.window_context matches Some(w) && w@ == ctx@,
            r.language == self.language,
            r.model_name == self.model_name,
    {
        let mut r = self;
        r.system_context.window_context = Some(owned(ctx));
        r
    }
}

/// Polished text with the engine and the time it took.
#[derive(Debug)]
pub struct PolishResult {
    pub text: String,
    pub engine: PolishEngineType,
    /// Total time in milliseconds.
    pub total_ms: u64,
    /// Model load time in milliseconds.
    pub model_load_ms: Option<u64>,
    /// Inference time in milliseconds.
    pub inference_ms: Option<u64>,
}

impl PolishResult {
    /// A result with its total time only.
    pub fn new(text: String, engine: PolishEngineType, total_ms: u64) -> (r: Self)
        ensures
            r.text == text,
            r.engine == engine,
            r.total_ms == total_ms,
            r.model_load_ms is None,
            r.inference_ms is None,
    {
        PolishResult { text, engine, total_ms, model_load_ms: None, inference_ms: None }
    }

    /// A result with detailed timings.
    pub fn with_metrics(
        text: String,
        engine: PolishEngineType,
        total_ms: u64,
        model_load_ms: Option<u64>,
        inference_ms: Option<u64>,
    ) -> (r: Self)
        ensures
            r.text == text,
            r.engine == engine,
            r.total_ms == total_ms,
            r.model_load_ms == model_load_ms,
            r.inference_ms == inference_ms,
    {
        PolishResult { text, engine, total_ms, model_load_ms, inference_ms }
    }
}

} // verus!
