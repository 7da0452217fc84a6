use std::cell::{Cell, RefCell};

use noodle::errors::NoodleError;
use noodle::extractor::{extract_facts, extraction_prompt, map_fact};
use noodle::json::parse_json;
use noodle::provider::{AiProvider, ChatRequest, ChatResponse, Embedding, Usage};
use noodle::schema::ExtractionPipeline;
use noodle::types::{Email, PrimaryType, Sentiment, Severity, Urgency, WaitingOn};

struct ScriptedProvider {
    replies: RefCell<Vec<String>>,
    chat_calls: Cell<usize>,
}

impl ScriptedProvider {
    fn new(replies: Vec<&str>) -> ScriptedProvider {
        ScriptedProvider {
            replies: RefCell::new(replies.into_iter().map(|s| s.to_string()).collect()),
            chat_calls: Cell::new(0),
        }
    }
}

impl AiProvider for ScriptedProvider {
    fn chat_completion(&self, _request: ChatRequest) -> Result<ChatResponse, NoodleError> {
        self.chat_calls.set(self.chat_calls.get() + 1);
        let mut replies = self.replies.borrow_mut();
        if replies.is_empty() {
            return Err(NoodleError::AI("script exhausted".to_string()));
        }
        let content = replies.remove(0);
        Ok(ChatResponse { content, usage: Usage { prompt_tokens: 0, completion_tokens: 0 } })
    }

    fn generate_embedding(&self, _text: &str) -> Result<Embedding, NoodleError> {
        Ok(Embedding { dims: vec![0x3f800000] })
    }

    fn list_models(&self) -> Result<Vec<String>, NoodleError> {
        Ok(vec![])
    }
}

fn make_email(entry_id: &str, subject: &str, body: &str) -> Email {
    Email {
        id: 7,
        store_id: "outlook".to_string(),
        entry_id: entry_id.to_string(),
        conversation_id: None,
        folder: "Inbox".to_string(),
        subject: subject.to_string(),
        sender: "alice@example.com".to_string(),
        to: "".to_string(),
        cc: None,
        bcc: None,
        sent_at: 0,
        received_at: 0,
        body_text: body.to_string(),
        body_html: None,
        importance: 1,
        categories: None,
        flags: None,
        internet_message_id: None,
        last_indexed_at: 0,
        hash: "".to_string(),
        excluded_reason: None,
    }
}

const PROJECT_X_DOC: &str = "{\"primary_type\":\"update\",\"intent\":\"ask\",\"urgency\":\"high\",\
    \"due_by\":\"2025-03-14T17:00:00Z\",\"sentiment\":\"concerned\",\
    \"client_or_project\":{\"name\":\"Project X\",\"confidence\":0.9},\
    \"risks\":[],\"issues\":[],\
    \"blockers\":[{\"title\":\"vendor sign-off\",\"details\":\"Waiting on vendor sign-off\",\
    \"owner\":null,\"severity\":\"high\",\"confidence\":0.8}],\
    \"open_questions\":[],\"answered_questions\":[],\"needs_response\":true,\
    \"waiting_on\":\"them\",\"summary\":\"Blocked on vendor sign-off\",\
    \"key_points\":[\"blocked\"],\"confidence\":0.75}";

#[test]
fn prompt_embeds_the_message() {
    let email = make_email("e1", "Project X status", "We are blocked");
    let p = extraction_prompt(&email);
    assert!(p.starts_with("Analyze the following email"));
    assert!(p.ends_with("Subject: Project X status\nFrom: alice@example.com\nBody: We are blocked"));
    assert!(p.contains("Respond ONLY with valid JSON"));
}

#[test]
fn missing_urgency_defaults_to_low() {
    let doc = parse_json(
        "{\"primary_type\":\"update\",\"summary\":\"s\",\"confidence\":0.5,\"needs_response\":false}",
    )
    .unwrap();
    let fact = map_fact(&doc, 7, 1000, 42);
    assert_eq!(fact.urgency, Urgency::Low);
    assert_eq!(fact.sentiment, Sentiment::Neutral);
    assert_eq!(fact.waiting_on, WaitingOn::NoOne);
}

#[test]
fn unknown_enum_values_default() {
    let doc = parse_json(
        "{\"primary_type\":\"party\",\"intent\":7,\"urgency\":\"urgent!\",\"summary\":\"s\",\
         \"confidence\":0.5,\"needs_response\":false}",
    )
    .unwrap();
    let fact = map_fact(&doc, 7, 1000, 42);
    assert_eq!(fact.primary_type, PrimaryType::Fyi);
    assert_eq!(fact.urgency, Urgency::Low);
    assert_eq!(fact.intent, noodle::types::Intent::Inform);
}

#[test]
fn confidence_is_clamped() {
    let doc = parse_json(
        "{\"primary_type\":\"update\",\"summary\":\"s\",\"confidence\":1.5,\"needs_response\":false}",
    )
    .unwrap();
    assert_eq!(map_fact(&doc, 1, 0, 0).confidence, 1000);
    let doc = parse_json(
        "{\"primary_type\":\"update\",\"summary\":\"s\",\"confidence\":-0.3,\"needs_response\":false}",
    )
    .unwrap();
    assert_eq!(map_fact(&doc, 1, 0, 0).confidence, 0);
    let doc = parse_json("{\"primary_type\":\"update\",\"summary\":\"s\",\"needs_response\":false}")
        .unwrap();
    assert_eq!(map_fact(&doc, 1, 0, 0).confidence, 0);
}

#[test]
fn due_by_parses_rfc3339_or_none() {
    let doc = parse_json("{\"due_by\":\"2025-01-10T12:00:00Z\"}").unwrap();
    assert_eq!(map_fact(&doc, 1, 0, 0).due_by, Some(1736510400));
    let doc = parse_json("{\"due_by\":\"next Friday\"}").unwrap();
    assert_eq!(map_fact(&doc, 1, 0, 0).due_by, None);
    let doc = parse_json("{\"due_by\":null}").unwrap();
    assert_eq!(map_fact(&doc, 1, 0, 0).due_by, None);
}

#[test]
fn malformed_list_entries_are_dropped_alone() {
    let doc = parse_json(
        "{\"key_points\":[\"a\",3,\"b\",null],\
         \"risks\":[{\"title\":\"t\",\"details\":\"d\",\"severity\":\"low\",\"confidence\":0.4},\
         {\"title\":\"bad\",\"details\":\"d\",\"severity\":\"catastrophic\",\"confidence\":0.4},\
         {\"details\":\"no title\",\"severity\":\"low\"}]}",
    )
    .unwrap();
    let fact = map_fact(&doc, 1, 0, 0);
    assert_eq!(fact.key_points, vec!["a".to_string(), "b".to_string()]);
    assert_eq!(fact.risks.len(), 1);
    assert_eq!(fact.risks[0].title, "t");
    assert_eq!(fact.risks[0].severity, Severity::Low);
    assert_eq!(fact.risks[0].confidence, 400);
    assert_eq!(fact.risks[0].owner, None);
}

#[test]
fn absent_lists_default_to_empty() {
    let doc = parse_json("{}").unwrap();
    let fact = map_fact(&doc, 1, 0, 0);
    assert!(fact.key_points.is_empty());
    assert!(fact.risks.is_empty());
    assert!(fact.issues.is_empty());
    assert!(fact.blockers.is_empty());
    assert!(fact.open_questions.is_empty());
    assert!(fact.answered_questions.is_empty());
    assert_eq!(fact.client_or_project.name, "Unknown");
    assert_eq!(fact.client_or_project.confidence, 0);
    assert_eq!(fact.summary, "");
    assert!(!fact.needs_response);
}

#[test]
fn project_x_extraction_end_to_end() {
    let pipeline = ExtractionPipeline::new();
    let provider = ScriptedProvider::new(vec![PROJECT_X_DOC]);
    let email = make_email(
        "e-x",
        "Project X status",
        "We are blocked on vendor sign-off; need response by Friday",
    );
    let fact = extract_facts(&pipeline, &provider, &email, 1000, 42).unwrap();
    assert_eq!(fact.email_id, 7);
    assert_eq!(fact.primary_type, PrimaryType::Update);
    assert!(fact.needs_response);
    assert_eq!(fact.blockers.len(), 1);
    assert_eq!(fact.blockers[0].title, "vendor sign-off");
    assert_eq!(fact.blockers[0].severity, Severity::High);
    assert_eq!(fact.due_by, Some(1741971600));
    assert_eq!(fact.urgency, Urgency::High);
    assert_eq!(fact.client_or_project.name, "Project X");
    assert_eq!(fact.client_or_project.confidence, 900);
    assert_eq!(fact.confidence, 750);
    assert_eq!(fact.summary, "Blocked on vendor sign-off");
    assert_eq!(fact.created_at, 1000);
    assert_eq!(fact.provenance.prompt_id, 42);
    assert_eq!(fact.provenance.model, "local");
}

#[test]
fn extraction_failure_is_fatal_for_the_item_only() {
    let pipeline = ExtractionPipeline::new();
    let provider = ScriptedProvider::new(vec!["garbage", "more garbage"]);
    let email = make_email("e-bad", "s", "b");
    let r = extract_facts(&pipeline, &provider, &email, 0, 0);
    assert_eq!(r.unwrap_err(), NoodleError::SchemaRepairFailed);
    assert_eq!(provider.chat_calls.get(), 2);
}
