//! Polishing through a cloud chat service: which endpoint is called, how the
//! caller is authenticated and what is sent.  The request itself is made by
//! the caller.
use vstd::prelude::*;

use crate::polish::traits::{window_context_prompt, PolishEngineType, PolishRequest};
use crate::text::{
    append_str, chars_of, copy_string, owned, seq_contains, seq_ends_with, str_contains, str_eq, string_from_chars,
    trim_end_by, trim_end_vec, vec_ends_with, CharClass,
};

verus! {

/// The configuration a cloud polish engine works with.
#[derive(Debug)]
pub struct CloudProviderConfig {
    pub provider_type: String,
    pub api_key: String,
    pub base_url: String,
    pub model: String,
    pub enable_thinking: bool,
}

/// A polish engine backed by a cloud chat service.
#[derive(Debug)]
pub struct CloudPolishEngine {
    pub config: CloudProviderConfig,
}

/// The two request formats the cloud services speak.
#[derive(Debug, Clone, Copy, PartialEq, Eq, Structural)]
pub enum CloudApi {
    /// Anthropic's messages API.
    Anthropic,
    /// The OpenAI chat completions API and services compatible with it.
    OpenAiCompatible,
}

/// The endpoint of a configuration: a base URL that already names an
/// endpoint is used as it is (without trailing slashes); one that ends in
/// `/v1` gets the endpoint; any other gets `/v1` and the endpoint.  Without a
/// base URL, Anthropic and OpenAI have their public endpoints; other
/// providers get the bare path `/v1/messages`.
pub open spec fn api_url_spec(provider_type: Seq<char>, base_url: Seq<char>) -> Seq<char> {
    let base = trim_end_by(base_url, CharClass::Slash);
    if base_url.len() > 0 {
        if seq_ends_with(base, "/messages"@) || seq_ends_with(base, "/chat/completions"@) {
            base
        } else if seq_ends_with(base, "/v1"@) {
            if provider_type == "anthropic"@ {
                base + "/messages"@
            } else {
                base + "/chat/completions"@
            }
        } else if provider_type == "anthropic"@ {
            base + "/v1/messages"@
        } else {
            base + "/v1/chat/completions"@
        }
    } else if provider_type == "anthropic"@ {
        "https://api.anthropic.com/v1/messages"@
    } else if provider_type == "openai"@ {
        "https://api.openai.com/v1/chat/completions"@
    } else {
        base + "/v1/messages"@
    }
}

/// Alibaba's coding plan endpoints.
pub open spec fn is_coding_plan_spec(base_url: Seq<char>) -> bool {
    seq_contains(base_url, "coding.dashscope.aliyuncs.com"@) || seq_contains(
        base_url,
        "coding-intl.dashscope.aliyuncs.com"@,
    )
}

/// The authentication header of a provider: Anthropic's API key header, or a
/// bearer token for every other provider.
pub open spec fn auth_header_spec(provider_type: Seq<char>, api_key: Seq<char>) -> (Seq<char>, Seq<char>) {
    if provider_type == "anthropic"@ {
        ("x-api-key"@, api_key)
    } else {
        ("Authorization"@, "Bearer "@ + api_key)
    }
}

/// The system prompt sent for a request: its effective prompt (the window
/// text before the system prompt, when there is window text), or the default
/// cloud prompt when that is empty.
pub open spec fn cloud_system_prompt_spec(window_context: Option<String>, system_prompt: Seq<char>) -> Seq<char> {
    let eff = match window_context {
        Some(ctx) if ctx@.len() > 0 => window_context_prompt(ctx@, system_prompt),
        _ => system_prompt,
    };
    if eff.len() == 0 {
        DEFAULT_CLOUD_SYSTEM_PROMPT@
    } else {
        eff
    }
}

/// The system prompt used when a request has none.
pub const DEFAULT_CLOUD_SYSTEM_PROMPT: &'static str = "You are a text polishing assistant. Clean up the user's text by removing filler words, fixing grammar, and improving readability while preserving the original meaning.";

/// Everything the caller needs to send a cloud polish request.
#[derive(Debug)]
pub struct CloudPolishCall {
    pub api: CloudApi,
    pub url: String,
    pub header_name: String,
    pub header_value: String,
    /// The user agent to send instead of the application's own.
    pub user_agent_override: Option<&'static str>,
    pub model: String,
    pub system_prompt: String,
    pub user_message: String,
    /// The thinking switch to send, for the services that take one.
    pub enable_thinking: Option<bool>,
    /// The most tokens the answer may have.
    pub max_tokens: u32,
}

/// The user agent the application sends to services other than the coding
/// plan endpoints.
pub const APP_USER_AGENT: &'static str = "ariatype/0.1.0";

/// The most tokens a cloud answer may have.
pub const CLOUD_MAX_TOKENS: u32 = 4096;

/// The version of Anthropic's API that requests are written for.
pub const ANTHROPIC_API_VERSION: &'static str = "2023-06-01";

/// The headers of a request, in the order they are sent: the credentials,
/// Anthropic's API version for Anthropic, the JSON content type, and the user
/// agent (the endpoint's own where it needs one, else the application's).
pub open spec fn request_headers_spec(c: CloudPolishCall) -> Seq<(Seq<char>, Seq<char>)> {
    seq![(c.header_name@, c.header_value@)] + (if c.api == CloudApi::Anthropic {
        seq![("anthropic-version"@, ANTHROPIC_API_VERSION@)]
    } else {
        Seq::empty()
    }) + seq![
        ("Content-Type"@, "application/json"@),
        (
            "User-Agent"@,
            match c.user_agent_override {
                Some(u) => u@,
                None => APP_USER_AGENT@,
            },
        ),
    ]
}

/// The views of a list of headers.
pub open spec fn headers_view(v: Seq<(String, String)>) -> Seq<(Seq<char>, Seq<char>)> {
    v.map_values(|h: (String, String)| (h.0@, h.1@))
}

impl CloudPolishCall {
    /// The headers of the request, in the order they are sent.
    pub fn request_headers(&self) -> (h: Vec<(String, String)>)
        ensures
            headers_view(h@) == request_headers_spec(*self),
    {
        let mut h: Vec<(String, String)> = Vec::new();
        h.push((copy_string(&self.header_name), copy_string(&self.header_value)));
        if self.api == CloudApi::Anthropic {
            h.push((owned("anthropic-version"), owned(ANTHROPIC_API_VERSION)));
        }
        h.push((owned("Content-Type"), owned("application/json")));
        let agent = match self.user_agent_override {
            Some(u) => u,
            None => APP_USER_AGENT,
        };
        h.push((owned("User-Agent"), owned(agent)));
        assert(headers_view(h@) =~= request_headers_spec(*self));
        h
    }
}

/// A content block of an Anthropic answer.
#[derive(Debug)]
pub struct AnthropicContentBlock {
    pub text: Option<String>,
}

/// An Anthropic answer, as far as it is read.
#[derive(Debug)]
pub struct AnthropicResponse {
    pub content: Vec<AnthropicContentBlock>,
}

/// The message of an OpenAI-compatible choice.
#[derive(Debug)]
pub struct OpenAiMessage {
    pub content: String,
}

/// A choice of an OpenAI-compatible answer.
#[derive(Debug)]
pub struct OpenAiChoice {
    pub message: OpenAiMessage,
}

/// An OpenAI-compatible answer, as far as it is read.
#[derive(Debug)]
pub struct OpenAiResponse {
    pub choices: Vec<OpenAiChoice>,
}

/// The polished text of an Anthropic answer: the first content block's text,
/// empty when there is no block or it has no text.
pub open spec fn anthropic_text_spec(r: AnthropicResponse) -> Seq<char> {
    if r.content@.len() > 0 {
        match r.content@[0].text {
            Some(t) => t@,
            None => Seq::empty(),
        }
    } else {
        Seq::empty()
    }
}

/// The polished text of an OpenAI-compatible answer: the first choice's
/// message, empty when there is no choice.
pub open spec fn openai_text_spec(r: OpenAiResponse) -> Seq<char> {
    if r.choices@.len() > 0 {
        r.choices@[0].message.content@
    } else {
        Seq::empty()
    }
}

/// Selects the polished text of an Anthropic answer.
pub fn anthropic_response_text(r: &AnthropicResponse) -> (t: String)
    ensures
        t@ == anthropic_text_spec(*r),
{
    proof {
        reveal_strlit("");
    }
    if r.content.len() > 0 {
        match &r.content[0].text {
            Some(t) => copy_string(t),
            None => owned(""),
        }
    } else {
        owned("")
    }
}

/// Selects the polished text of an OpenAI-compatible answer.
pub fn openai_response_text(r: &OpenAiResponse) -> (t: String)
    ensures
        t@ == openai_text_spec(*r),
{
    proof {
        reveal_strlit("");
    }
    if r.choices.len() > 0 {
        copy_string(&r.choices[0].message.content)
    } else {
        owned("")
    }
}

impl CloudPolishEngine {
    /// An engine for the configuration.
    pub fn new(config: CloudProviderConfig) -> (e: Self)
        ensures
            e.config == config,
    {
        CloudPolishEngine { config }
    }

    /// This engine is the cloud engine.
    pub fn engine_type(&self) -> (t: PolishEngineType)
        ensures
            t == PolishEngineType::Cloud,
    {
        PolishEngineType::Cloud
    }

    /// The URL requests are sent to.
    pub fn get_api_url(&self) -> (url: String)
        ensures
            url@ == api_url_spec(self.config.provider_type@, self.config.base_url@),
    {
        let raw = chars_of(self.config.base_url.as_str());
        let base_chars = trim_end_vec(&raw, CharClass::Slash);
        let base = string_from_chars(&base_chars);
        let provider = self.config.provider_type.as_str();
        let is_anthropic = str_eq(provider, "anthropic");
        if raw.len() > 0 {
            if vec_ends_with(&base_chars, &chars_of("/messages")) || vec_ends_with(
                &base_chars,
                &chars_of("/chat/completions"),
            ) {
                base
            } else if vec_ends_with(&base_chars, &chars_of("/v1")) {
                let mut url = base;
                if is_anthropic {
                    append_str(&mut url, "/messages");
                } else {
                    append_str(&mut url, "/chat/completions");
                }
                url
            } else {
                let mut url = base;
                if is_anthropic {
                    append_str(&mut url, "/v1/messages");
                } else {
                    append_str(&mut url, "/v1/chat/completions");
                }
                url
            }
        } else if is_anthropic {
            owned("https://api.anthropic.com/v1/messages")
        } else if str_eq(provider, "openai") {
            owned("https://api.openai.com/v1/chat/completions")
        } else {
            let mut url = base;
            append_str(&mut url, "/v1/messages");
            url
        }
    }

    /// The authentication header: Anthropic's API key header, or a bearer
    /// token for every other provider.
    pub fn get_auth_header(&self) -> (h: (String, String))
        ensures
            self.config.provider_type@ == "anthropic"@ ==> h.0@ == "x-api-key"@ && h.1@ == self.config.api_key@,
            self.config.provider_type@ != "anthropic"@ ==> h.0@ == "Authorization"@ && h.1@ == "Bearer "@
                + self.config.api_key@,
    {
        if str_eq(self.config.provider_type.as_str(), "anthropic") {
            (owned("x-api-key"), self.config.api_key.clone())
        } else {
            let mut v = owned("Bearer ");
            append_str(&mut v, self.config.api_key.as_str());
            (owned("Authorization"), v)
        }
    }

    /// Whether the base URL is one of Alibaba's coding plan endpoints.
    pub fn is_coding_plan_endpoint(&self) -> (b: bool)
        ensures
            b == is_coding_plan_spec(self.config.base_url@),
    {
        let url = chars_of(self.config.base_url.as_str());
        str_contains(&url, "coding.dashscope.aliyuncs.com") || str_contains(&url, "coding-intl.dashscope.aliyuncs.com")
    }

    /// The coding plan endpoints are called with their own user agent;
    /// otherwise the application's is used.
    pub fn user_agent_override(&self) -> (a: Option<&'static str>)
        ensures
            is_coding_plan_spec(self.config.base_url@) ==> (a matches Some(s) && s@ == "opencode/1.0.0"@),
            !is_coding_plan_spec(self.config.base_url@) ==> a is None,
    {
        if self.is_coding_plan_endpoint() {
            Some("opencode/1.0.0")
        } else {
            None
        }
    }

    /// Prepares the request for `request`: refused without an API key or a
    /// model; Anthropic's format for the Anthropic provider and the
    /// OpenAI-compatible format for all others; the request's effective
    /// prompt as system prompt, or the default one when it is empty; the
    /// thinking switch only for the coding plan endpoints.
    pub fn prepare(&self, request: &PolishRequest) -> (r: Result<CloudPolishCall, String>)
        ensures
            self.config.api_key@.len() == 0 ==> (r matches Err(e) && e@ == "Cloud polish API key not configured"@),
            self.config.api_key@.len() > 0 && self.config.model@.len() == 0 ==> (r matches Err(e) && e@
                == "Cloud polish model not configured"@),
            self.config.api_key@.len() > 0 && self.config.model@.len() > 0 ==> (r matches Ok(c) && {
                &&& c.api == (if self.config.provider_type@ == "anthropic"@ {
                    CloudApi::Anthropic
                } else {
                    CloudApi::OpenAiCompatible
                })
                &&& c.url@ == api_url_spec(self.config.provider_type@, self.config.base_url@)
                &&& c.model == self.config.model
                &&& c.user_message == request.text
                &&& c.enable_thinking == (if c.api == CloudApi::OpenAiCompatible && is_coding_plan_spec(
                    self.config.base_url@,
                ) {
                    Some(self.config.enable_thinking)
                } else {
                    None
                })
                &&& (is_coding_plan_spec(self.config.base_url@) ==> (c.user_agent_override matches Some(a) && a@
                    == "opencode/1.0.0"@))
                &&& (!is_coding_plan_spec(self.config.base_url@) ==> c.user_agent_override is None)
                &&& c.max_tokens == CLOUD_MAX_TOKENS
                &&& (c.header_name@, c.header_value@) == auth_header_spec(self.config.provider_type@, self.config.api_key@)
                &&& c.system_prompt@ == cloud_system_prompt_spec(request.system_context.window_context, request.system_context.system_prompt@)
            }),
    {
        if self.config.api_key.unicode_len() == 0 {
            return Err(owned("Cloud polish API key not configured"));
        }
        if self.config.model.unicode_len() == 0 {
            return Err(owned("Cloud polish model not configured"));
        }
        let prompt = request.system_context.effective_prompt();
        let system_prompt = if prompt.unicode_len() == 0 {
            owned(DEFAULT_CLOUD_SYSTEM_PROMPT)
        } else {
            prompt
        };
        let api = if str_eq(self.config.provider_type.as_str(), "anthropic") {
            CloudApi::Anthropic
        } else {
            CloudApi::OpenAiCompatible
        };
        let (header_name, header_value) = self.get_auth_header();
        let coding = self.is_coding_plan_endpoint();
        let enable_thinking = if api == CloudApi::OpenAiCompatible && coding {
            Some(self.config.enable_thinking)
        } else {
            None
        };
        Ok(CloudPolishCall {
            api,
            url: self.get_api_url(),
            header_name,
            header_value,
            user_agent_override: self.user_agent_override(),
            model: self.config.model.clone(),
            system_prompt,
            user_message: request.text.clone(),
            enable_thinking,
            max_tokens: CLOUD_MAX_TOKENS,
        })
    }
}


/// A text followed by `t` ends with `t`.
proof fn lemma_concat_ends_with(x: Seq<char>, t: Seq<char>)
    ensures
        seq_ends_with(x + t, t),
{
    assert((x + t).subrange((x + t).len() - t.len(), (x + t).len() as int) =~= t);
}

/// A text that ends with `u`, where `u` ends with `t`, ends with `t`.
proof fn lemma_ends_with_trans(s: Seq<char>, u: Seq<char>, t: Seq<char>)
    requires
        seq_ends_with(s, u),
        seq_ends_with(u, t),
    ensures
        seq_ends_with(s, t),
{
    assert forall|i: int| 0 <= i < t.len() implies #[trigger] s.subrange(s.len() - t.len(), s.len() as int)[i]
        == t[i] by {
        assert(s[s.len() - t.len() + i] == s.subrange(s.len() - u.len(), s.len() as int)[u.len() - t.len() + i]);
        assert(u[u.len() - t.len() + i] == u.subrange(u.len() - t.len(), u.len() as int)[i]);
    }
    assert(s.subrange(s.len() - t.len(), s.len() as int) =~= t);
}

/// Law: requests for the Anthropic provider go to Anthropic's messages API:
/// whatever the base URL, the endpoint ends with `/messages`, unless the
/// base URL itself already names the chat completions endpoint.
pub proof fn lemma_anthropic_endpoint_is_messages(base_url: Seq<char>)
    requires
        !seq_ends_with(trim_end_by(base_url, CharClass::Slash), "/chat/completions"@),
    ensures
        seq_ends_with(api_url_spec("anthropic"@, base_url), "/messages"@),
{
    reveal_strlit("/messages");
    reveal_strlit("/v1/messages");
    reveal_strlit("https://api.anthropic.com/v1/messages");
    let base = trim_end_by(base_url, CharClass::Slash);
    lemma_concat_ends_with(base, "/messages"@);
    lemma_concat_ends_with("/v1"@, "/messages"@);
    assert("/v1/messages"@ =~= "/v1"@ + "/messages"@) by {
        reveal_strlit("/v1");
    }
    lemma_concat_ends_with(base, "/v1/messages"@);
    lemma_ends_with_trans(base + "/v1/messages"@, "/v1/messages"@, "/messages"@);
    lemma_concat_ends_with("https://api.anthropic.com/v1"@, "/messages"@);
    assert("https://api.anthropic.com/v1/messages"@ =~= "https://api.anthropic.com/v1"@ + "/messages"@) by {
        reveal_strlit("https://api.anthropic.com/v1");
    }
}

/// Law: requests for any other provider with a base URL go to the chat
/// completions API: the endpoint ends with `/chat/completions`, unless the
/// base URL itself already names the messages endpoint.
pub proof fn lemma_other_endpoint_is_chat_completions(provider_type: Seq<char>, base_url: Seq<char>)
    requires
        provider_type != "anthropic"@,
        base_url.len() > 0,
        !seq_ends_with(trim_end_by(base_url, CharClass::Slash), "/messages"@),
    ensures
        seq_ends_with(api_url_spec(provider_type, base_url), "/chat/completions"@),
{
    reveal_strlit("/chat/completions");
    reveal_strlit("/v1/chat/completions");
    reveal_strlit("/v1");
    let base = trim_end_by(base_url, CharClass::Slash);
    lemma_concat_ends_with(base, "/chat/completions"@);
    assert("/v1/chat/completions"@ =~= "/v1"@ + "/chat/completions"@);
    lemma_concat_ends_with("/v1"@, "/chat/completions"@);
    lemma_concat_ends_with(base, "/v1/chat/completions"@);
    lemma_ends_with_trans(base + "/v1/chat/completions"@, "/v1/chat/completions"@, "/chat/completions"@);
}

} // verus!
