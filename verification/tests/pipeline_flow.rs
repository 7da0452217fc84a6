use std::cell::{Cell, RefCell};

use noodle::errors::NoodleError;
use noodle::ident::stable_vector_id;
use noodle::pipeline::ExtractionPipeline;
use noodle::provider::{AiProvider, ChatRequest, ChatResponse, Embedding, Usage};
use noodle::store::{RelationalStore, VectorStore};
use noodle::types::Email;

struct ScriptedProvider {
    replies: RefCell<Vec<String>>,
    chat_calls: Cell<usize>,
    fail_chat: bool,
    fail_embedding: bool,
}

impl ScriptedProvider {
    fn new(replies: Vec<&str>) -> ScriptedProvider {
        ScriptedProvider {
            replies: RefCell::new(replies.into_iter().map(|s| s.to_string()).collect()),
            chat_calls: Cell::new(0),
            fail_chat: false,
            fail_embedding: false,
        }
    }
}

impl AiProvider for ScriptedProvider {
    fn chat_completion(&self, _request: ChatRequest) -> Result<ChatResponse, NoodleError> {
        self.chat_calls.set(self.chat_calls.get() + 1);
        if self.fail_chat {
            return Err(NoodleError::AI("backend unreachable".to_string()));
        }
        let mut replies = self.replies.borrow_mut();
        if replies.is_empty() {
            return Err(NoodleError::AI("script exhausted".to_string()));
        }
        let content = replies.remove(0);
        Ok(ChatResponse { content, usage: Usage { prompt_tokens: 1, completion_tokens: 2 } })
    }

    fn generate_embedding(&self, _text: &str) -> Result<Embedding, NoodleError> {
        if self.fail_embedding {
            return Err(NoodleError::AI("no embeddings".to_string()));
        }
        Ok(Embedding { dims: vec![0x3f800000, 0x40000000] })
    }

    fn list_models(&self) -> Result<Vec<String>, NoodleError> {
        Ok(vec![])
    }
}

fn make_email(entry_id: &str, subject: &str, body: &str) -> Email {
    Email {
        id: 0,
        store_id: "outlook".to_string(),
        entry_id: entry_id.to_string(),
        conversation_id: None,
        folder: "Inbox".to_string(),
        subject: subject.to_string(),
        sender: "alice@example.com".to_string(),
        to: "".to_string(),
        cc: None,
        bcc: None,
        sent_at: 10,
        received_at: 20,
        body_text: body.to_string(),
        body_html: None,
        importance: 1,
        categories: None,
        flags: None,
        internet_message_id: None,
        last_indexed_at: 30,
        hash: "".to_string(),
        excluded_reason: None,
    }
}

const VALID_DOC: &str = "{\"primary_type\":\"update\",\"summary\":\"ok\",\"confidence\":0.6,\"needs_response\":false}";

#[test]
fn process_writes_message_facts_and_vector() {
    let pipeline = ExtractionPipeline::new();
    let provider = ScriptedProvider::new(vec![VALID_DOC]);
    let mut sqlite = RelationalStore::new();
    let mut qdrant = VectorStore::new();
    let email = make_email("e1", "subject", "body");
    let id = pipeline
        .process_email(&mut sqlite, &mut qdrant, &provider, email, 1000, 9)
        .unwrap();
    assert_eq!(id, 1);
    assert_eq!(sqlite.email_count(), 1);
    assert_eq!(sqlite.fact_count(), 1);
    assert_eq!(qdrant.point_count(), 1);
    let row = sqlite.email_at(0);
    assert_eq!(row.id, 1);
    assert_eq!(row.hash.len(), 64);
    let fact = sqlite.fact_at(0);
    assert_eq!(fact.email_id, 1);
    assert_eq!(fact.summary, "ok");
    assert_eq!(fact.confidence, 600);
    let point = qdrant.point_at(0);
    assert_eq!(point.0, stable_vector_id("outlook", "e1"));
    assert_eq!(point.1.payload.subject, "subject");
    assert_eq!(point.1.vector.dims, vec![0x3f800000, 0x40000000]);
}

#[test]
fn processing_twice_leaves_one_row_and_one_record() {
    let pipeline = ExtractionPipeline::new();
    let provider = ScriptedProvider::new(vec![VALID_DOC, VALID_DOC]);
    let mut sqlite = RelationalStore::new();
    let mut qdrant = VectorStore::new();
    let id1 = pipeline
        .process_email(&mut sqlite, &mut qdrant, &provider, make_email("e1", "s", "b"), 1000, 1)
        .unwrap();
    let id2 = pipeline
        .process_email(&mut sqlite, &mut qdrant, &provider, make_email("e1", "s2", "b2"), 2000, 2)
        .unwrap();
    assert_eq!(id1, id2);
    assert_eq!(sqlite.email_count(), 1);
    assert_eq!(sqlite.fact_count(), 1);
    assert_eq!(qdrant.point_count(), 1);
    assert_eq!(sqlite.email_at(0).subject, "s2");
}

#[test]
fn extraction_failure_still_records_the_message() {
    let pipeline = ExtractionPipeline::new();
    let mut provider = ScriptedProvider::new(vec![]);
    provider.fail_chat = true;
    let mut sqlite = RelationalStore::new();
    let mut qdrant = VectorStore::new();
    let r = pipeline.process_email(
        &mut sqlite,
        &mut qdrant,
        &provider,
        make_email("e1", "s", "b"),
        1000,
        1,
    );
    match r {
        Err(NoodleError::AI(_)) => {}
        other => panic!("expected an AI error, got {:?}", other),
    }
    assert_eq!(sqlite.email_count(), 1);
    assert_eq!(sqlite.fact_count(), 0);
    assert_eq!(qdrant.point_count(), 0);
}

#[test]
fn repair_exhaustion_still_records_the_message() {
    let pipeline = ExtractionPipeline::new();
    let provider = ScriptedProvider::new(vec!["junk", "junk again"]);
    let mut sqlite = RelationalStore::new();
    let mut qdrant = VectorStore::new();
    let r = pipeline.process_email(
        &mut sqlite,
        &mut qdrant,
        &provider,
        make_email("e1", "s", "b"),
        1000,
        1,
    );
    assert_eq!(r, Err(NoodleError::SchemaRepairFailed));
    assert_eq!(sqlite.email_count(), 1);
    assert_eq!(sqlite.fact_count(), 0);
    assert_eq!(qdrant.point_count(), 0);
}

#[test]
fn embedding_failure_keeps_facts_but_not_vector() {
    let pipeline = ExtractionPipeline::new();
    let mut provider = ScriptedProvider::new(vec![VALID_DOC]);
    provider.fail_embedding = true;
    let mut sqlite = RelationalStore::new();
    let mut qdrant = VectorStore::new();
    let r = pipeline.process_email(
        &mut sqlite,
        &mut qdrant,
        &provider,
        make_email("e1", "s", "b"),
        1000,
        1,
    );
    match r {
        Err(NoodleError::AI(_)) => {}
        other => panic!("expected an AI error, got {:?}", other),
    }
    assert_eq!(sqlite.email_count(), 1);
    assert_eq!(sqlite.fact_count(), 1);
    assert_eq!(qdrant.point_count(), 0);
}

#[test]
fn repaired_content_is_what_the_pipeline_commits() {
    let pipeline = ExtractionPipeline::new();
    let repaired = "{\"primary_type\":\"update\",\"summary\":\"repaired\",\"confidence\":0.9,\"needs_response\":true}";
    let provider = ScriptedProvider::new(vec!["{\"primary_type\":\"update\"}", repaired]);
    let mut sqlite = RelationalStore::new();
    let mut qdrant = VectorStore::new();
    pipeline
        .process_email(&mut sqlite, &mut qdrant, &provider, make_email("e1", "s", "b"), 1000, 1)
        .unwrap();
    assert_eq!(provider.chat_calls.get(), 2);
    assert_eq!(sqlite.fact_at(0).summary, "repaired");
    assert!(sqlite.fact_at(0).needs_response);
}
