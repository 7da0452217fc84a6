//! The AI backend capability and the two HTTP dialects spoken to it.
//!
//! `AiProvider` is the port the pipeline calls for chat completions and
//! embeddings; the application implements it over HTTP, tests implement it
//! with scripted responses. Nothing is assumed of an implementation: every
//! caller handles every outcome.
//!
//! The pure halves of the two concrete providers live here, verified: which
//! model name a request is sent with, and how a chat or model-list response
//! body is read. The HTTP transfer itself stays outside the library.

use vstd::prelude::*;
use crate::errors::NoodleError;
use crate::json::JsonValue;
use crate::numbers::{spec_parse_i64, parse_i64};
use vstd::utf8::encode_utf8;

verus! {

/// One chat turn: a role ("system" or "user") and its text.
#[derive(Debug, Clone)]
pub struct Message {
    pub role: String,
    pub content: String,
}

/// The response mode asked of the backend; `Json` is the strict-JSON mode
/// extraction relies on.
#[derive(Debug, Clone, Copy, PartialEq, Eq, Structural)]
pub enum ResponseFormat {
    Json,
    Text,
}

/// A chat completion request. Temperature is in thousandths: extraction
/// pins it to 0, the drafting helper uses 700.
#[derive(Debug, Clone)]
pub struct ChatRequest {
    pub messages: Vec<Message>,
    pub temperature: u32,
    pub response_format: Option<ResponseFormat>,
    pub model: Option<String>,
}

/// Token accounting as reported by the backend; zero where not reported.
#[derive(Debug, Clone, Copy, PartialEq, Eq, Structural)]
pub struct Usage {
    pub prompt_tokens: u32,
    pub completion_tokens: u32,
}

/// A chat completion answer: the text and its token accounting.
#[derive(Debug, Clone)]
pub struct ChatResponse {
    pub content: String,
    pub usage: Usage,
}

/// The two wire dialects a backend can speak.
#[derive(Debug, Clone, Copy, PartialEq, Eq, Structural)]
pub enum ProviderType {
    Ollama,
    OpenAICompatible,
}

/// An embedding vector. Each entry is the bit pattern of one 32-bit float
/// component; the pipeline never reads the components, it carries them to
/// the vector store.
#[derive(Debug, Clone, PartialEq, Eq)]
pub struct Embedding {
    pub dims: Vec<u32>,
}

/// The AI backend: chat completion, embedding, and model listing.
///
/// Implemented outside the library (an HTTP client in the application, a
/// script in tests). No method promises anything of its result: the
/// pipeline states what holds whatever comes back.
pub trait AiProvider {
    fn chat_completion(&self, request: ChatRequest) -> Result<ChatResponse, NoodleError>;

    fn generate_embedding(&self, text: &str) -> Result<Embedding, NoodleError>;

    fn list_models(&self) -> Result<Vec<String>, NoodleError>;
}

/// The model name a request is sent with: the request's own, else the
/// configured one, else "llama3".
pub open spec fn spec_effective_model(req_model: Option<String>, configured: Option<String>) -> Seq<
    char,
> {
    match req_model {
        Some(m) => m@,
        None => match configured {
            Some(m) => m@,
            None => "llama3"@,
        },
    }
}

/// Picks the model name for a request.
pub fn effective_model(req_model: &Option<String>, configured: &Option<String>) -> (r: String)
    ensures
        r@ == spec_effective_model(*req_model, *configured),
{
    match req_model {
        Some(m) => m.clone(),
        None => match configured {
            Some(m) => m.clone(),
            None => String::from_str("llama3"),
        },
    }
}

/// A token count read from a response field: a whole number within `u32`,
/// anything else as zero.
pub open spec fn spec_token_count(field: Option<JsonValue>) -> u32 {
    match field {
        Some(JsonValue::Num(l)) => match spec_parse_i64(encode_utf8(l@)) {
            Some(v) => if 0 <= v <= u32::MAX {
                v as u32
            } else {
                0
            },
            None => 0,
        },
        _ => 0,
    }
}

/// Reads a token count out of a response field.
pub fn token_count(field: Option<&JsonValue>) -> (r: u32)
    ensures
        match field {
            Some(v) => r == spec_token_count(Some(*v)),
            None => r == 0,
        },
{
    match field {
        Some(JsonValue::Num(l)) => {
            match parse_i64(l.as_str()) {
                Some(v) => if 0 <= v && v <= u32::MAX as i64 {
                    v as u32
                } else {
                    0
                },
                None => 0,
            }
        },
        _ => 0,
    }
}

/// What a well-formed Ollama chat response body must hold: a "message"
/// object with a string "content".
pub open spec fn spec_ollama_content(body: JsonValue) -> Option<Seq<char>> {
    match body.spec_get("message"@) {
        Some(msg) => match msg.spec_get("content"@) {
            Some(JsonValue::Str(s)) => Some(s@),
            _ => None,
        },
        None => None,
    }
}

/// Reads an Ollama chat response body: the message content, with token
/// counts from "prompt_eval_count" and "eval_count"; an error when the
/// body has no string content.
pub fn ollama_chat_response(body: &JsonValue) -> (r: Result<ChatResponse, NoodleError>)
    ensures
        match r {
            Ok(resp) => {
                &&& spec_ollama_content(*body) == Some(resp.content@)
                &&& resp.usage.prompt_tokens == spec_token_count(body.spec_get("prompt_eval_count"@))
                &&& resp.usage.completion_tokens == spec_token_count(body.spec_get("eval_count"@))
            },
            Err(e) => spec_ollama_content(*body) is None && e is AI,
        },
{
    let content: String = match body.get("message") {
        Some(msg) => match msg.get("content") {
            Some(JsonValue::Str(s)) => s.clone(),
            _ => {
                return Err(NoodleError::AI(String::from_str("invalid chat response body")));
            },
        },
        None => {
            return Err(NoodleError::AI(String::from_str("invalid chat response body")));
        },
    };
    let prompt_tokens = token_count(body.get("prompt_eval_count"));
    let completion_tokens = token_count(body.get("eval_count"));
    Ok(ChatResponse { content, usage: Usage { prompt_tokens, completion_tokens } })
}

/// What a well-formed OpenAI-compatible chat response body must hold:
/// "choices" with a first element whose "message" has a string "content".
pub open spec fn spec_openai_content(body: JsonValue) -> Option<Seq<char>> {
    match body.spec_get("choices"@) {
        Some(JsonValue::Arr(choices)) => if choices@.len() > 0 {
            match choices@[0].spec_get("message"@) {
                Some(msg) => match msg.spec_get("content"@) {
                    Some(JsonValue::Str(s)) => Some(s@),
                    _ => None,
                },
                None => None,
            }
        } else {
            None
        },
        _ => None,
    }
}

/// Reads an OpenAI-compatible chat response body: the first choice's
/// message content, with token counts from the "usage" object; an error
/// when the body has no string content there.
pub fn openai_chat_response(body: &JsonValue) -> (r: Result<ChatResponse, NoodleError>)
    ensures
        match r {
            Ok(resp) => {
                &&& spec_openai_content(*body) == Some(resp.content@)
                &&& match body.spec_get("usage"@) {
                    Some(u) => resp.usage.prompt_tokens == spec_token_count(
                        u.spec_get("prompt_tokens"@),
                    ) && resp.usage.completion_tokens == spec_token_count(
                        u.spec_get("completion_tokens"@),
                    ),
                    None => resp.usage.prompt_tokens == 0 && resp.usage.completion_tokens == 0,
                }
            },
            Err(e) => spec_openai_content(*body) is None && e is AI,
        },
{
    let content: String = match body.get("choices") {
        Some(JsonValue::Arr(choices)) => {
            if choices.len() > 0 {
                match choices[0].get("message") {
                    Some(msg) => match msg.get("content") {
                        Some(JsonValue::Str(s)) => s.clone(),
                        _ => {
                            return Err(
                                NoodleError::AI(String::from_str("invalid chat response body")),
                            );
                        },
                    },
                    None => {
                        return Err(
                            NoodleError::AI(String::from_str("invalid chat response body")),
                        );
                    },
                }
            } else {
                return Err(NoodleError::AI(String::from_str("invalid chat response body")));
            }
        },
        _ => {
            return Err(NoodleError::AI(String::from_str("invalid chat response body")));
        },
    };
    let (prompt_tokens, completion_tokens): (u32, u32) = match body.get("usage") {
        Some(u) => (token_count(u.get("prompt_tokens")), token_count(u.get("completion_tokens"))),
        None => (0, 0),
    };
    Ok(ChatResponse { content, usage: Usage { prompt_tokens, completion_tokens } })
}

/// The filter that keeps entries with a string field `key`.
pub open spec fn named_pred(key: Seq<char>) -> spec_fn(JsonValue) -> bool {
    |e: JsonValue| is_named_entry(e, key)
}

/// The map that reads that field.
pub open spec fn name_map(key: Seq<char>) -> spec_fn(JsonValue) -> Seq<char> {
    |e: JsonValue| entry_name(e, key)
}

/// The model names a list body holds: under `list_key`, each entry's
/// string field `name_key`; entries without it dropped.
pub open spec fn spec_model_names(body: JsonValue, list_key: Seq<char>, name_key: Seq<char>) -> Seq<
    Seq<char>,
> {
    match body.spec_get(list_key) {
        Some(JsonValue::Arr(entries)) => entries@.filter(named_pred(name_key)).map_values(
            name_map(name_key),
        ),
        _ => Seq::empty(),
    }
}

pub open spec fn is_named_entry(e: JsonValue, key: Seq<char>) -> bool {
    e.spec_get(key) matches Some(JsonValue::Str(_))
}

pub open spec fn entry_name(e: JsonValue, key: Seq<char>) -> Seq<char> {
    match e.spec_get(key) {
        Some(JsonValue::Str(s)) => s@,
        _ => Seq::empty(),
    }
}

/// Reads a model-list response body: under `list_key` ("models" or
/// "data"), each entry's string field `name_key` ("name" or "id");
/// entries without it are dropped.
pub fn model_names(body: &JsonValue, list_key: &str, name_key: &str) -> (r: Vec<String>)
    ensures
        r@.len() == spec_model_names(*body, list_key@, name_key@).len(),
        forall|i: int|
            0 <= i < r@.len() ==> (#[trigger] r@[i])@ == spec_model_names(
                *body,
                list_key@,
                name_key@,
            )[i],
{
    let mut out: Vec<String> = Vec::new();
    match body.get(list_key) {
        Some(JsonValue::Arr(entries)) => {
            let ghost full = entries@;
            let ghost pred = named_pred(name_key@);
            let n = entries.len();
            assert(full.take(0) =~= Seq::<JsonValue>::empty());
            assert(full.take(0).filter(pred) =~= Seq::<JsonValue>::empty());
            for i in 0..n
                invariant
                    n == full.len(),
                    entries@ == full,
                    pred == named_pred(name_key@),
                    out@.len() == full.take(i as int).filter(pred).len(),
                    forall|j: int|
                        0 <= j < out@.len() ==> (#[trigger] out@[j])@ == entry_name(
                            full.take(i as int).filter(pred)[j],
                            name_key@,
                        ),
            {
                proof {
                    crate::seqtools::lemma_filter_step(full, pred, i as int);
                }
                let entry = &entries[i];
                match entry.get(name_key) {
                    Some(JsonValue::Str(s)) => {
                        proof {
                            assert(entry.spec_get(name_key@) matches Some(JsonValue::Str(_)));
                            assert(pred(full[i as int]));
                            assert(entry_name(full[i as int], name_key@) == s@);
                        }
                        out.push(s.clone());
                    },
                    _ => {
                        proof {
                            assert(!pred(full[i as int]));
                        }
                    },
                }
            }
            proof {
                assert(full.take(n as int) =~= full);
            }
        },
        _ => (),
    }
    out
}


/// The connection address a provider type falls back to when none is
/// configured.
pub open spec fn spec_default_url(ptype: Seq<char>) -> Seq<char> {
    if ptype == "lemonade"@ {
        "http://localhost:8000/v1"@
    } else if ptype == "foundry"@ {
        "http://localhost:5000/v1"@
    } else {
        "http://localhost:11434"@
    }
}

/// Resolves the active backend from the stored configuration, as a
/// configuration change re-reads it: the provider type defaults to
/// "ollama"; each type has its own configured address with its own
/// default; every type but "ollama" speaks the OpenAI-compatible dialect.
pub fn resolve_provider_settings(
    provider_type: Option<String>,
    ollama_url: Option<String>,
    lemonade_url: Option<String>,
    foundry_url: Option<String>,
    model: Option<String>,
    api_key: Option<String>,
) -> (r: ProviderSettings)
    ensures
        ({
            let ptype = match provider_type {
                Some(t) => t@,
                None => "ollama"@,
            };
            &&& r.provider_type == (if ptype == "ollama"@ {
                ProviderType::Ollama
            } else {
                ProviderType::OpenAICompatible
            })
            &&& r.base_url@ == (if ptype == "lemonade"@ {
                match lemonade_url {
                    Some(u) => u@,
                    None => spec_default_url(ptype),
                }
            } else if ptype == "foundry"@ {
                match foundry_url {
                    Some(u) => u@,
                    None => spec_default_url(ptype),
                }
            } else {
                match ollama_url {
                    Some(u) => u@,
                    None => spec_default_url(ptype),
                }
            })
            &&& r.model == model
            &&& r.api_key == api_key
        }),
{
    let ptype: String = match provider_type {
        Some(t) => t,
        None => String::from_str("ollama"),
    };
    let is_lemonade = crate::json::str_eq(ptype.as_str(), "lemonade");
    let is_foundry = crate::json::str_eq(ptype.as_str(), "foundry");
    let is_ollama = crate::json::str_eq(ptype.as_str(), "ollama");
    let base_url: String = if is_lemonade {
        match lemonade_url {
            Some(u) => u,
            None => String::from_str("http://localhost:8000/v1"),
        }
    } else if is_foundry {
        match foundry_url {
            Some(u) => u,
            None => String::from_str("http://localhost:5000/v1"),
        }
    } else {
        match ollama_url {
            Some(u) => u,
            None => String::from_str("http://localhost:11434"),
        }
    };
    let provider_kind = if is_ollama {
        ProviderType::Ollama
    } else {
        ProviderType::OpenAICompatible
    };
    ProviderSettings { provider_type: provider_kind, base_url, api_key, model }
}

/// Which backend a configuration names, with its connection details.
#[derive(Debug, Clone)]
pub struct ProviderSettings {
    pub provider_type: ProviderType,
    pub base_url: String,
    pub api_key: Option<String>,
    pub model: Option<String>,
}

/// The swappable handle to the active AI backend's settings.
///
/// Reads are short-lived copies; a swap replaces the settings whole, so a
/// call that already read them completes against what it read and later
/// calls see the new backend. The mutual exclusion that makes a swap
/// atomic under concurrent readers is the application's reader-writer
/// lock around this registry; the registry itself holds the state and its
/// transitions.
#[derive(Debug, Clone)]
pub struct AiProviderRegistry {
    active: ProviderSettings,
}

impl AiProviderRegistry {
    /// A registry holding its first backend.
    pub fn new(initial: ProviderSettings) -> (r: AiProviderRegistry)
        ensures
            r.spec_active() == initial,
    {
        AiProviderRegistry { active: initial }
    }

    pub closed spec fn spec_active(self) -> ProviderSettings {
        self.active
    }

    /// The settings every new call uses.
    pub fn read(&self) -> (r: &ProviderSettings)
        ensures
            *r == self.spec_active(),
    {
        &self.active
    }

    /// Replaces the active backend; calls that begin after the swap use
    /// the new one.
    pub fn swap(&mut self, next: ProviderSettings) -> (previous: ProviderSettings)
        ensures
            final(self).spec_active() == next,
            previous == old(self).spec_active(),
    {
        let mut next = next;
        core::mem::swap(&mut self.active, &mut next);
        next
    }
}

} // verus!
