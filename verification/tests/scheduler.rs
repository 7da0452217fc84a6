use std::cell::{Cell, RefCell};

use noodle::errors::NoodleError;
use noodle::provider::{AiProvider, ChatRequest, ChatResponse, Embedding, Usage};
use noodle::store::{RelationalStore, VectorStore};
use noodle::sync::{default_folders, sync_settings_from_config, ScanPhase, SyncConfig, SyncManager};
use noodle::types::Email;

struct ScriptedProvider {
    replies: RefCell<Vec<String>>,
    chat_calls: Cell<usize>,
}

impl ScriptedProvider {
    fn new(replies: Vec<&str>) -> ScriptedProvider {
        ScriptedProvider {
            replies: RefCell::new(replies.into_iter().map(|s| s.to_string()).collect()),
            chat_calls: Cell::new(0),
        }
    }
}

impl AiProvider for ScriptedProvider {
    fn chat_completion(&self, _request: ChatRequest) -> Result<ChatResponse, NoodleError> {
        self.chat_calls.set(self.chat_calls.get() + 1);
        let mut replies = self.replies.borrow_mut();
        if replies.is_empty() {
            return Err(NoodleError::AI("script exhausted".to_string()));
        }
        let content = replies.remove(0);
        Ok(ChatResponse { content, usage: Usage { prompt_tokens: 0, completion_tokens: 0 } })
    }

    fn generate_embedding(&self, _text: &str) -> Result<Embedding, NoodleError> {
        Ok(Embedding { dims: vec![0] })
    }

    fn list_models(&self) -> Result<Vec<String>, NoodleError> {
        Ok(vec![])
    }
}

fn make_email(entry_id: &str, subject: &str) -> Email {
    Email {
        id: 0,
        store_id: "outlook".to_string(),
        entry_id: entry_id.to_string(),
        conversation_id: None,
        folder: "Inbox".to_string(),
        subject: subject.to_string(),
        sender: "alice@example.com".to_string(),
        to: "".to_string(),
        cc: None,
        bcc: None,
        sent_at: 0,
        received_at: 0,
        body_text: "body".to_string(),
        body_html: None,
        importance: 1,
        categories: None,
        flags: None,
        internet_message_id: None,
        last_indexed_at: 0,
        hash: "".to_string(),
        excluded_reason: None,
    }
}

const VALID_DOC: &str = "{\"primary_type\":\"update\",\"summary\":\"ok\",\"confidence\":0.6,\"needs_response\":false}";

fn test_config() -> SyncConfig {
    SyncConfig { history_days: 90, delta_days: 1, interval_minutes: 2 }
}

#[test]
fn failed_folder_does_not_stop_the_scan() {
    let manager = SyncManager::new(test_config());
    let provider = ScriptedProvider::new(vec![VALID_DOC, VALID_DOC]);
    let mut sqlite = RelationalStore::new();
    let mut qdrant = VectorStore::new();
    let fetches: Vec<Result<Vec<Email>, NoodleError>> = vec![
        Err(NoodleError::Outlook("folder A unreachable".to_string())),
        Ok(vec![make_email("b1", "one"), make_email("b2", "two")]),
    ];
    let report = manager.run_scan(&mut sqlite, &mut qdrant, &provider, fetches, 1000, 1);
    assert_eq!(report.folders_failed, 1);
    assert_eq!(report.folders_succeeded, 1);
    assert_eq!(report.messages_processed, 2);
    assert_eq!(report.messages_skipped, 0);
    assert_eq!(sqlite.email_count(), 2);
    assert_eq!(sqlite.fact_count(), 2);
}

#[test]
fn failed_message_does_not_stop_the_scan() {
    let manager = SyncManager::new(test_config());
    // First message: two junk answers exhaust its repair; the rest succeed.
    let provider = ScriptedProvider::new(vec!["junk", "junk", VALID_DOC, VALID_DOC]);
    let mut sqlite = RelationalStore::new();
    let mut qdrant = VectorStore::new();
    let fetches: Vec<Result<Vec<Email>, NoodleError>> = vec![Ok(vec![
        make_email("a1", "bad"),
        make_email("a2", "good"),
        make_email("a3", "also good"),
    ])];
    let report = manager.run_scan(&mut sqlite, &mut qdrant, &provider, fetches, 1000, 1);
    assert_eq!(report.messages_processed, 2);
    assert_eq!(report.messages_skipped, 1);
    // The skipped message is still recorded, without facts.
    assert_eq!(sqlite.email_count(), 3);
    assert_eq!(sqlite.fact_count(), 2);
}

#[test]
fn rescan_is_idempotent() {
    let manager = SyncManager::new(test_config());
    let provider = ScriptedProvider::new(vec![VALID_DOC, VALID_DOC]);
    let mut sqlite = RelationalStore::new();
    let mut qdrant = VectorStore::new();
    let first: Vec<Result<Vec<Email>, NoodleError>> = vec![Ok(vec![make_email("a1", "one")])];
    manager.run_scan(&mut sqlite, &mut qdrant, &provider, first, 1000, 1);
    let second: Vec<Result<Vec<Email>, NoodleError>> = vec![Ok(vec![make_email("a1", "one")])];
    manager.run_scan(&mut sqlite, &mut qdrant, &provider, second, 2000, 10);
    assert_eq!(sqlite.email_count(), 1);
    assert_eq!(sqlite.fact_count(), 1);
    assert_eq!(qdrant.point_count(), 1);
}

#[test]
fn phases_pick_their_windows() {
    let mut manager = SyncManager::new(test_config());
    assert_eq!(manager.phase, ScanPhase::InitialScan);
    assert_eq!(manager.scan_window_days(), 90);
    manager.complete_initial_scan();
    assert_eq!(manager.phase, ScanPhase::SteadyState);
    assert_eq!(manager.scan_window_days(), 1);
}

#[test]
fn interval_falls_back_outside_its_range() {
    let mut manager = SyncManager::new(test_config());
    assert_eq!(manager.tick_interval_secs(), 120);
    manager.config.interval_minutes = 5;
    assert_eq!(manager.tick_interval_secs(), 300);
    manager.config.interval_minutes = 0;
    assert_eq!(manager.tick_interval_secs(), 120);
    manager.config.interval_minutes = -3;
    assert_eq!(manager.tick_interval_secs(), 120);
    manager.config.interval_minutes = 100000;
    assert_eq!(manager.tick_interval_secs(), 120);
}

#[test]
fn settings_parse_with_defaults() {
    let c = sync_settings_from_config(None, None);
    assert_eq!(c.history_days, 90);
    assert_eq!(c.interval_minutes, 2);
    assert_eq!(c.delta_days, 1);
    let c = sync_settings_from_config(Some("30".to_string()), Some("5".to_string()));
    assert_eq!(c.history_days, 30);
    assert_eq!(c.interval_minutes, 5);
    let c = sync_settings_from_config(Some("a month".to_string()), Some("".to_string()));
    assert_eq!(c.history_days, 90);
    assert_eq!(c.interval_minutes, 2);
}

#[test]
fn default_folders_are_inbox_and_sent_items() {
    let folders = default_folders();
    assert_eq!(folders.len(), 2);
    assert_eq!(folders[0].id, 6);
    assert_eq!(folders[0].name, "Inbox");
    assert_eq!(folders[1].id, 5);
    assert_eq!(folders[1].name, "Sent Items");
}
