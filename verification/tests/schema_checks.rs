use std::cell::{Cell, RefCell};

use noodle::errors::NoodleError;
use noodle::json::{parse_json, JsonValue};
use noodle::provider::{AiProvider, ChatRequest, ChatResponse, Embedding, Usage};
use noodle::schema::{
    extraction_request, first_attempt, repair_request, second_attempt, ExtractOutcome,
    ExtractionPipeline, ExtractionValidator,
};

/// A backend that answers from a script and counts its chat calls.
struct ScriptedProvider {
    replies: RefCell<Vec<String>>,
    chat_calls: Cell<usize>,
}

impl ScriptedProvider {
    fn new(replies: Vec<&str>) -> ScriptedProvider {
        ScriptedProvider {
            replies: RefCell::new(replies.into_iter().map(|s| s.to_string()).collect()),
            chat_calls: Cell::new(0),
        }
    }
}

impl AiProvider for ScriptedProvider {
    fn chat_completion(&self, _request: ChatRequest) -> Result<ChatResponse, NoodleError> {
        self.chat_calls.set(self.chat_calls.get() + 1);
        let mut replies = self.replies.borrow_mut();
        if replies.is_empty() {
            return Err(NoodleError::AI("script exhausted".to_string()));
        }
        let content = replies.remove(0);
        Ok(ChatResponse { content, usage: Usage { prompt_tokens: 0, completion_tokens: 0 } })
    }

    fn generate_embedding(&self, _text: &str) -> Result<Embedding, NoodleError> {
        Ok(Embedding { dims: vec![0x3f800000] })
    }

    fn list_models(&self) -> Result<Vec<String>, NoodleError> {
        Ok(vec![])
    }
}

const VALID_DOC: &str = "{\"primary_type\":\"update\",\"summary\":\"all good\",\"confidence\":0.8,\"needs_response\":false}";

#[test]
fn validator_accepts_required_fields() {
    let validator = ExtractionValidator::new();
    let doc = parse_json(VALID_DOC).unwrap();
    assert!(validator.validate(&doc));
}

#[test]
fn validator_rejects_missing_fields() {
    let validator = ExtractionValidator::new();
    for doc in [
        "{\"summary\":\"s\",\"confidence\":0.8,\"needs_response\":false}",
        "{\"primary_type\":\"update\",\"confidence\":0.8,\"needs_response\":false}",
        "{\"primary_type\":\"update\",\"summary\":\"s\",\"needs_response\":false}",
        "{\"primary_type\":\"update\",\"summary\":\"s\",\"confidence\":0.8}",
    ] {
        assert!(!validator.validate(&parse_json(doc).unwrap()));
    }
}

#[test]
fn validator_rejects_wrong_types_and_ranges() {
    let validator = ExtractionValidator::new();
    for doc in [
        "{\"primary_type\":1,\"summary\":\"s\",\"confidence\":0.8,\"needs_response\":false}",
        "{\"primary_type\":\"u\",\"summary\":\"s\",\"confidence\":1.5,\"needs_response\":false}",
        "{\"primary_type\":\"u\",\"summary\":\"s\",\"confidence\":-0.1,\"needs_response\":false}",
        "{\"primary_type\":\"u\",\"summary\":\"s\",\"confidence\":0.8,\"needs_response\":\"yes\"}",
    ] {
        assert!(!validator.validate(&parse_json(doc).unwrap()));
    }
}

#[test]
fn validator_bounds_summary_length() {
    let validator = ExtractionValidator::new();
    let long = "x".repeat(501);
    let doc = JsonValue::Obj(vec![
        ("primary_type".to_string(), JsonValue::Str("update".to_string())),
        ("summary".to_string(), JsonValue::Str(long)),
        ("confidence".to_string(), JsonValue::Num("0.5".to_string())),
        ("needs_response".to_string(), JsonValue::Bool(true)),
    ]);
    assert!(!validator.validate(&doc));
    let ok = "x".repeat(500);
    let doc = JsonValue::Obj(vec![
        ("primary_type".to_string(), JsonValue::Str("update".to_string())),
        ("summary".to_string(), JsonValue::Str(ok)),
        ("confidence".to_string(), JsonValue::Num("0.5".to_string())),
        ("needs_response".to_string(), JsonValue::Bool(true)),
    ]);
    assert!(validator.validate(&doc));
}

#[test]
fn first_attempt_accepts_valid_answer() {
    let validator = ExtractionValidator::new();
    match first_attempt(&validator, "the text", VALID_DOC) {
        ExtractOutcome::Accepted(v) => {
            assert_eq!(v.get("summary"), Some(&JsonValue::Str("all good".to_string())));
        }
        ExtractOutcome::NeedsRepair(_) => panic!("valid answer asked for repair"),
    }
}

#[test]
fn first_attempt_builds_repair_prompt() {
    let validator = ExtractionValidator::new();
    match first_attempt(&validator, "the text", "not json at all") {
        ExtractOutcome::Accepted(_) => panic!("invalid answer accepted"),
        ExtractOutcome::NeedsRepair(p) => {
            assert_eq!(
                p,
                "The previous JSON output was invalid according to the schema. Fix it.\n\n\
                 Text: the text\n\nInvalid JSON: not json at all"
            );
        }
    }
}

#[test]
fn second_attempt_never_repairs_again() {
    let validator = ExtractionValidator::new();
    assert_eq!(second_attempt(&validator, "still not json"), Err(NoodleError::SchemaRepairFailed));
    assert!(second_attempt(&validator, VALID_DOC).is_ok());
}

#[test]
fn request_builders_pin_extraction_mode() {
    let r = extraction_request("analyze this");
    assert_eq!(r.temperature, 0);
    assert_eq!(r.messages.len(), 2);
    assert_eq!(r.messages[0].role, "system");
    assert_eq!(r.messages[1].content, "analyze this");
    let r = repair_request("fix this");
    assert_eq!(r.temperature, 0);
    assert_eq!(r.messages[1].content, "fix this");
}

#[test]
fn invalid_json_repairs_exactly_once() {
    let pipeline = ExtractionPipeline::new();
    let provider = ScriptedProvider::new(vec!["not json at all", "still not json"]);
    let r = pipeline.extract_with_repair(&provider, "the text");
    assert_eq!(r, Err(NoodleError::SchemaRepairFailed));
    assert_eq!(provider.chat_calls.get(), 2);
}

#[test]
fn schema_failure_repairs_exactly_once() {
    let pipeline = ExtractionPipeline::new();
    let provider = ScriptedProvider::new(vec!["{\"hello\": 1}", "{\"hello\": 2}"]);
    let r = pipeline.extract_with_repair(&provider, "the text");
    assert_eq!(r, Err(NoodleError::SchemaRepairFailed));
    assert_eq!(provider.chat_calls.get(), 2);
}

#[test]
fn valid_first_answer_never_repairs() {
    let pipeline = ExtractionPipeline::new();
    let provider = ScriptedProvider::new(vec![VALID_DOC]);
    let r = pipeline.extract_with_repair(&provider, "the text");
    assert!(r.is_ok());
    assert_eq!(provider.chat_calls.get(), 1);
}

#[test]
fn repaired_answer_is_committed() {
    let pipeline = ExtractionPipeline::new();
    let repaired = "{\"primary_type\":\"update\",\"summary\":\"repaired\",\"confidence\":0.9,\"needs_response\":true}";
    let provider = ScriptedProvider::new(vec!["{\"primary_type\":\"update\"}", repaired]);
    let doc = pipeline.extract_with_repair(&provider, "the text").unwrap();
    assert_eq!(doc.get("summary"), Some(&JsonValue::Str("repaired".to_string())));
    assert_eq!(provider.chat_calls.get(), 2);
}

#[test]
fn backend_failure_is_an_ai_error() {
    let pipeline = ExtractionPipeline::new();
    let provider = ScriptedProvider::new(vec![]);
    match pipeline.extract_with_repair(&provider, "the text") {
        Err(NoodleError::AI(_)) => {}
        other => panic!("expected an AI error, got {:?}", other),
    }
}
