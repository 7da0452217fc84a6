//! Schema validation of a model answer, and the one-shot repair session.
//!
//! `validate` is a structural check of the required top-level fields:
//! `primary_type` a string, `summary` a string of at most 500 characters,
//! `confidence` a number within [0, 1], `needs_response` a boolean.
//!
//! `extract_with_repair` runs one extraction; if the answer does not parse
//! or does not validate, it sends one repair request — the original text
//! plus the invalid answer — and never a second: a still-invalid repair is
//! `SchemaRepairFailed`.

use vstd::prelude::*;
use vstd::utf8::encode_utf8;
use crate::errors::NoodleError;

use crate::json::{json_of, parse_json, JsonValue};
use crate::numbers::{spec_number_in_unit, spec_number_wf, unit_number};
use crate::provider::{AiProvider, ChatRequest, Message, ResponseFormat};

verus! {

/// Longest accepted summary, in characters.
pub const MAX_SUMMARY_CHARS: usize = 500;

/// The schema, as a predicate: the required fields with their types.
pub open spec fn spec_validate(v: JsonValue) -> bool {
    &&& v.spec_get("primary_type"@) matches Some(JsonValue::Str(_))
    &&& match v.spec_get("summary"@) {
        Some(JsonValue::Str(s)) => s@.len() <= MAX_SUMMARY_CHARS,
        _ => false,
    }
    &&& match v.spec_get("confidence"@) {
        Some(JsonValue::Num(l)) => spec_number_wf(encode_utf8(l@)) && spec_number_in_unit(
            encode_utf8(l@),
        ),
        _ => false,
    }
    &&& v.spec_get("needs_response"@) matches Some(JsonValue::Bool(_))
}

/// Validates a model answer against the required-fields schema.
pub struct ExtractionValidator {
}

impl ExtractionValidator {
    pub fn new() -> (r: ExtractionValidator) {
        ExtractionValidator {  }
    }

    /// Whether the document carries every required field, with the right
    /// type and bounds.
    pub fn validate(&self, json: &JsonValue) -> (r: bool)
        ensures
            r == spec_validate(*json),
    {
        let primary_ok = match json.get("primary_type") {
            Some(JsonValue::Str(_)) => true,
            _ => false,
        };
        let summary_ok = match json.get("summary") {
            Some(JsonValue::Str(s)) => s.as_str().unicode_len() <= MAX_SUMMARY_CHARS,
            _ => false,
        };
        let confidence_ok = match json.get("confidence") {
            Some(JsonValue::Num(l)) => match unit_number(l.as_str()) {
                Some(p) => p.0,
                None => false,
            },
            _ => false,
        };
        let needs_ok = match json.get("needs_response") {
            Some(JsonValue::Bool(_)) => true,
            _ => false,
        };
        primary_ok && summary_ok && confidence_ok && needs_ok
    }
}

/// Whether a model answer is accepted outright: valid JSON that validates.
pub open spec fn spec_accepts(content: Seq<char>) -> bool {
    match json_of(content) {
        Some(v) => spec_validate(v),
        None => false,
    }
}

/// The user prompt of the repair request: the original text plus the
/// invalid answer.
pub open spec fn spec_repair_prompt(text: Seq<char>, content: Seq<char>) -> Seq<char> {
    "The previous JSON output was invalid according to the schema. Fix it.\n\nText: "@ + text
        + "\n\nInvalid JSON: "@ + content
}

/// What one extraction attempt led to.
pub enum ExtractOutcome {
    /// The answer parsed and validated: the parsed document.
    Accepted(JsonValue),
    /// The answer did not: the repair prompt to send, once.
    NeedsRepair(String),
}

/// Coerces a backend failure into the `AI` error class, keeping an `AI`
/// error's own message.
pub(crate) fn as_ai_error(e: NoodleError) -> (r: NoodleError)
    ensures
        r is AI,
{
    match e {
        NoodleError::AI(m) => NoodleError::AI(m),
        other => NoodleError::AI(other.kind().to_owned()),
    }
}

/// Judges the first answer: accepted outright, or in need of the one
/// repair pass.
pub fn first_attempt(validator: &ExtractionValidator, text: &str, content: &str) -> (r:
    ExtractOutcome)
    ensures
        match r {
            ExtractOutcome::Accepted(v) => spec_accepts(content@) && json_of(content@) == Some(v),
            ExtractOutcome::NeedsRepair(p) => !spec_accepts(content@) && p@ == spec_repair_prompt(
                text@,
                content@,
            ),
        },
{
    match parse_json(content) {
        Some(v) => {
            if validator.validate(&v) {
                return ExtractOutcome::Accepted(v);
            }
        },
        None => {},
    }
    let mut p = String::from_str(
        "The previous JSON output was invalid according to the schema. Fix it.\n\nText: ",
    );
    p.append(text);
    p.append("\n\nInvalid JSON: ");
    p.append(content);
    ExtractOutcome::NeedsRepair(p)
}

/// Judges the repaired answer: the parsed document when it validates, and
/// `SchemaRepairFailed` otherwise — never another repair.
pub fn second_attempt(validator: &ExtractionValidator, content: &str) -> (r: Result<
    JsonValue,
    NoodleError,
>)
    ensures
        match r {
            Ok(v) => spec_accepts(content@) && json_of(content@) == Some(v),
            Err(e) => !spec_accepts(content@) && e == NoodleError::SchemaRepairFailed,
        },
{
    match parse_json(content) {
        Some(v) => {
            if validator.validate(&v) {
                return Ok(v);
            }
        },
        None => {},
    }
    Err(NoodleError::SchemaRepairFailed)
}

/// Builds the extraction request: the analyst system prompt, the text as
/// the user turn, temperature 0, strict JSON mode.
pub fn extraction_request(text: &str) -> (r: ChatRequest)
    ensures
        r.messages@.len() == 2,
        r.messages@[0].role@ == "system"@,
        r.messages@[0].content@ == "You are an expert email analyst. Output valid JSON only."@,
        r.messages@[1].role@ == "user"@,
        r.messages@[1].content@ == text@,
        r.temperature == 0,
        r.response_format == Some(ResponseFormat::Json),
        r.model is None,
{
    let mut messages: Vec<Message> = Vec::new();
    messages.push(
        Message {
            role: String::from_str("system"),
            content: String::from_str("You are an expert email analyst. Output valid JSON only."),
        },
    );
    messages.push(Message { role: String::from_str("user"), content: String::from_str(text) });
    ChatRequest {
        messages,
        temperature: 0,
        response_format: Some(ResponseFormat::Json),
        model: None,
    }
}

/// Builds the repair request: the repair-specialist system prompt, the
/// repair prompt as the user turn, temperature 0, strict JSON mode.
pub fn repair_request(repair_prompt: &str) -> (r: ChatRequest)
    ensures
        r.messages@.len() == 2,
        r.messages@[0].role@ == "system"@,
        r.messages@[0].content@ == "You are a JSON repair specialist. Output corrected JSON only."@,
        r.messages@[1].role@ == "user"@,
        r.messages@[1].content@ == repair_prompt@,
        r.temperature == 0,
        r.response_format == Some(ResponseFormat::Json),
        r.model is None,
{
    let mut messages: Vec<Message> = Vec::new();
    messages.push(
        Message {
            role: String::from_str("system"),
            content: String::from_str(
                "You are a JSON repair specialist. Output corrected JSON only.",
            ),
        },
    );
    messages.push(
        Message { role: String::from_str("user"), content: String::from_str(repair_prompt) },
    );
    ChatRequest {
        messages,
        temperature: 0,
        response_format: Some(ResponseFormat::Json),
        model: None,
    }
}

/// Drives extraction against a backend, with the one-shot repair.
pub struct ExtractionPipeline {
    pub validator: ExtractionValidator,
}

impl ExtractionPipeline {
    pub fn new() -> (r: ExtractionPipeline) {
        ExtractionPipeline { validator: ExtractionValidator::new() }
    }

    /// Runs one extraction and at most one repair. A document is returned
    /// only if it validates; a backend failure is an `AI` error; answers
    /// that never validate are `SchemaRepairFailed`.
    pub fn extract_with_repair<P: AiProvider>(&self, ai: &P, text: &str) -> (r: Result<
        JsonValue,
        NoodleError,
    >)
        ensures
            match r {
                Ok(v) => spec_validate(v),
                Err(e) => e is AI || e == NoodleError::SchemaRepairFailed,
            },
    {
        let request = extraction_request(text);
        let response = match ai.chat_completion(request) {
            Ok(resp) => resp,
            Err(e) => {
                return Err(as_ai_error(e));
            },
        };
        let repair_prompt = match first_attempt(&self.validator, text, response.content.as_str()) {
            ExtractOutcome::Accepted(v) => {
                return Ok(v);
            },
            ExtractOutcome::NeedsRepair(p) => p,
        };
        let request = repair_request(repair_prompt.as_str());
        let response = match ai.chat_completion(request) {
            Ok(resp) => resp,
            Err(e) => {
                return Err(as_ai_error(e));
            },
        };
        second_attempt(&self.validator, response.content.as_str())
    }
}

/// The outcome of a whole session in which the backend answered `c1` and,
/// if a repair was needed, `c2`.
pub open spec fn spec_session_outcome(c1: Seq<char>, c2: Seq<char>) -> Result<
    JsonValue,
    NoodleError,
> {
    if spec_accepts(c1) {
        Ok(json_of(c1)->Some_0)
    } else if spec_accepts(c2) {
        Ok(json_of(c2)->Some_0)
    } else {
        Err(NoodleError::SchemaRepairFailed)
    }
}

/// How many repair requests a session sends for a first answer `c1`.
pub open spec fn spec_session_repairs(c1: Seq<char>) -> nat {
    if spec_accepts(c1) {
        0
    } else {
        1
    }
}

/// Law: a first answer that is not valid JSON at all causes exactly one
/// repair request; whatever comes back, the session then either accepts it
/// or fails with `SchemaRepairFailed` — it never asks again.
pub proof fn lemma_invalid_json_repairs_once(c1: Seq<char>, c2: Seq<char>)
    requires
        json_of(c1) is None,
    ensures
        spec_session_repairs(c1) == 1,
        spec_session_outcome(c1, c2) == if spec_accepts(c2) {
            Ok::<JsonValue, NoodleError>(json_of(c2)->Some_0)
        } else {
            Err::<JsonValue, NoodleError>(NoodleError::SchemaRepairFailed)
        },
{
}

/// Law: when the first answer fails validation and the repaired answer
/// passes, the session commits the repaired content, not the original.
pub proof fn lemma_repaired_content_wins(c1: Seq<char>, c2: Seq<char>)
    requires
        !spec_accepts(c1),
        spec_accepts(c2),
    ensures
        spec_session_outcome(c1, c2) == Ok::<JsonValue, NoodleError>(json_of(c2)->Some_0),
{
}

} // verus!
