use noodle::provider::Embedding;
use noodle::store::{RelationalStore, VectorPayload, VectorStore};
use noodle::types::{Email, EmailFact, Intent, PrimaryType, ProjectInfo, Provenance, Sentiment, Urgency, WaitingOn};

fn make_email(entry_id: &str, subject: &str) -> Email {
    Email {
        id: 0,
        store_id: "outlook".to_string(),
        entry_id: entry_id.to_string(),
        conversation_id: None,
        folder: "Inbox".to_string(),
        subject: subject.to_string(),
        sender: "alice@example.com".to_string(),
        to: "".to_string(),
        cc: None,
        bcc: None,
        sent_at: 10,
        received_at: 20,
        body_text: "body".to_string(),
        body_html: None,
        importance: 1,
        categories: None,
        flags: None,
        internet_message_id: None,
        last_indexed_at: 30,
        hash: "h1".to_string(),
        excluded_reason: None,
    }
}

fn make_fact(email_id: i64, summary: &str, created_at: i64) -> EmailFact {
    EmailFact {
        email_id,
        primary_type: PrimaryType::Update,
        intent: Intent::Inform,
        client_or_project: ProjectInfo { name: "p".to_string(), confidence: 500 },
        sentiment: Sentiment::Neutral,
        urgency: Urgency::Low,
        due_by: None,
        needs_response: false,
        waiting_on: WaitingOn::NoOne,
        summary: summary.to_string(),
        key_points: vec![],
        risks: vec![],
        issues: vec![],
        blockers: vec![],
        open_questions: vec![],
        answered_questions: vec![],
        confidence: 500,
        provenance: Provenance {
            model: "local".to_string(),
            provider: "local".to_string(),
            prompt_id: 1,
            created_at,
        },
        created_at,
    }
}

#[test]
fn save_email_assigns_sequential_ids() {
    let mut store = RelationalStore::new();
    let id1 = store.save_email(make_email("e1", "one"));
    let id2 = store.save_email(make_email("e2", "two"));
    assert_eq!(id1, 1);
    assert_eq!(id2, 2);
    assert_eq!(store.email_count(), 2);
}

#[test]
fn save_email_upsert_is_idempotent() {
    let mut store = RelationalStore::new();
    let id1 = store.save_email(make_email("e1", "first subject"));
    let mut again = make_email("e1", "updated subject");
    again.hash = "h2".to_string();
    let id2 = store.save_email(again);
    assert_eq!(id1, id2);
    assert_eq!(store.email_count(), 1);
    let row = store.email_at(0);
    assert_eq!(row.subject, "updated subject");
    assert_eq!(row.hash, "h2");
    // A field outside the update set keeps its first value.
    assert_eq!(row.sent_at, 10);
}

#[test]
fn save_facts_upsert_keeps_one_row_per_message() {
    let mut store = RelationalStore::new();
    store.save_facts(make_fact(1, "first", 100));
    store.save_facts(make_fact(1, "second", 200));
    store.save_facts(make_fact(2, "other", 300));
    assert_eq!(store.fact_count(), 2);
    let row = store.fact_at(0);
    assert_eq!(row.summary, "second");
    // The original creation time survives the conflict update.
    assert_eq!(row.created_at, 100);
}

#[test]
fn config_set_and_get() {
    let mut store = RelationalStore::new();
    assert_eq!(store.get_config("history_days"), None);
    store.set_config("history_days", "30");
    assert_eq!(store.get_config("history_days"), Some("30".to_string()));
    store.set_config("history_days", "90");
    assert_eq!(store.get_config("history_days"), Some("90".to_string()));
    assert_eq!(store.get_config("other"), None);
}

#[test]
fn vector_upsert_overwrites_at_stable_identity() {
    let mut store = VectorStore::new();
    let id1 = store.upsert_email_vector(
        "outlook",
        "entry-1",
        Embedding { dims: vec![1, 2] },
        VectorPayload { subject: "one".to_string() },
    );
    let id2 = store.upsert_email_vector(
        "outlook",
        "entry-1",
        Embedding { dims: vec![3, 4] },
        VectorPayload { subject: "two".to_string() },
    );
    assert_eq!(id1, id2);
    assert_eq!(id1, 15953084373646506182u64);
    assert_eq!(store.point_count(), 1);
    let point = store.point_at(0);
    assert_eq!(point.0, id1);
    assert_eq!(point.1.vector.dims, vec![3, 4]);
    assert_eq!(point.1.payload.subject, "two");
}

#[test]
fn vector_ids_do_not_collide_across_messages() {
    let mut store = VectorStore::new();
    store.upsert_email_vector(
        "outlook",
        "entry-1",
        Embedding { dims: vec![] },
        VectorPayload { subject: "a".to_string() },
    );
    store.upsert_email_vector(
        "outlook",
        "entry-2",
        Embedding { dims: vec![] },
        VectorPayload { subject: "b".to_string() },
    );
    assert_eq!(store.point_count(), 2);
}
