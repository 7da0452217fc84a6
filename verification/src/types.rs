//! Domain types of the pipeline.
//!
//! Timestamps are unix seconds (`i64`). Confidence scores are thousandths
//! (`u32` in [0, 1000]); the fixed-point reader in `numbers` produces them.
//! Request identifiers are 128-bit values supplied by the caller.
//!
//! Every closed classification parses from its snake_case wire name and
//! falls back to a documented default on a missing or unknown value:
//! `PrimaryType::Fyi`, `Intent::Inform`, `Urgency::Low`,
//! `Sentiment::Neutral`, `WaitingOn::NoOne`. A `Severity` has no default:
//! a list entry whose severity is unreadable is dropped, alone.

use vstd::prelude::*;
use crate::json::str_eq;

verus! {

/// A mail message as fetched from the source. `(store_id, entry_id)` is
/// globally unique per source instance; `id` is the durable relational id,
/// zero until the message is first persisted; `hash` is filled in by the
/// pipeline before persisting.
#[derive(Debug, Clone)]
pub struct Email {
    pub id: i64,
    pub store_id: String,
    pub entry_id: String,
    pub conversation_id: Option<String>,
    pub folder: String,
    pub subject: String,
    pub sender: String,
    pub to: String,
    pub cc: Option<String>,
    pub bcc: Option<String>,
    pub sent_at: i64,
    pub received_at: i64,
    pub body_text: String,
    pub body_html: Option<String>,
    pub importance: i32,
    pub categories: Option<String>,
    pub flags: Option<i32>,
    pub internet_message_id: Option<String>,
    pub last_indexed_at: i64,
    pub hash: String,
    pub excluded_reason: Option<String>,
}

/// A mail attachment record.
#[derive(Debug, Clone)]
pub struct Attachment {
    pub id: i64,
    pub email_id: i64,
    pub filename: String,
    pub mime: String,
    pub size_bytes: i64,
    pub extracted_text: Option<String>,
    pub hash: String,
}

/// The structured facts extracted from one message, one-to-one with its
/// persisted parent, keyed by the parent's relational id.
#[derive(Debug, Clone)]
pub struct EmailFact {
    pub email_id: i64,
    pub primary_type: PrimaryType,
    pub intent: Intent,
    pub client_or_project: ProjectInfo,
    pub sentiment: Sentiment,
    pub urgency: Urgency,
    pub due_by: Option<i64>,
    pub needs_response: bool,
    pub waiting_on: WaitingOn,
    pub summary: String,
    pub key_points: Vec<String>,
    pub risks: Vec<Risk>,
    pub issues: Vec<Issue>,
    pub blockers: Vec<Blocker>,
    pub open_questions: Vec<OpenQuestion>,
    pub answered_questions: Vec<AnsweredQuestion>,
    pub confidence: u32,
    pub provenance: Provenance,
    pub created_at: i64,
}

impl EmailFact {
    /// Every confidence score in the fact, its lists included, lies in
    /// [0, 1000] thousandths.
    pub open spec fn wf(self) -> bool {
        &&& self.confidence <= 1000
        &&& self.client_or_project.confidence <= 1000
        &&& forall|i: int| 0 <= i < self.risks@.len() ==> #[trigger] self.risks@[i].confidence
            <= 1000
        &&& forall|i: int| 0 <= i < self.issues@.len() ==> #[trigger] self.issues@[i].confidence
            <= 1000
        &&& forall|i: int|
            0 <= i < self.blockers@.len() ==> #[trigger] self.blockers@[i].confidence <= 1000
        &&& forall|i: int|
            0 <= i < self.open_questions@.len()
                ==> #[trigger] self.open_questions@[i].confidence <= 1000
        &&& forall|i: int|
            0 <= i < self.answered_questions@.len()
                ==> #[trigger] self.answered_questions@[i].confidence <= 1000
    }
}

#[derive(Debug, Clone, Copy, PartialEq, Eq, Structural)]
pub enum PrimaryType {
    Update,
    Request,
    Decision,
    Fyi,
}

impl PrimaryType {
    pub open spec fn spec_parse(s: Seq<char>) -> PrimaryType {
        if s == "update"@ {
            PrimaryType::Update
        } else if s == "request"@ {
            PrimaryType::Request
        } else if s == "decision"@ {
            PrimaryType::Decision
        } else {
            PrimaryType::Fyi
        }
    }

    /// Parses the wire name; an unknown name is the default, `Fyi`.
    pub fn parse_or_default(s: &str) -> (r: PrimaryType)
        ensures
            r == PrimaryType::spec_parse(s@),
    {
        if str_eq(s, "update") {
            PrimaryType::Update
        } else if str_eq(s, "request") {
            PrimaryType::Request
        } else if str_eq(s, "decision") {
            PrimaryType::Decision
        } else {
            PrimaryType::Fyi
        }
    }

    pub open spec fn spec_name(self) -> Seq<char> {
        match self {
            PrimaryType::Update => "update"@,
            PrimaryType::Request => "request"@,
            PrimaryType::Decision => "decision"@,
            PrimaryType::Fyi => "fyi"@,
        }
    }

    /// The snake_case wire name.
    pub fn as_str(&self) -> (r: &'static str)
        ensures
            r@ == self.spec_name(),
    {
        match self {
            PrimaryType::Update => "update",
            PrimaryType::Request => "request",
            PrimaryType::Decision => "decision",
            PrimaryType::Fyi => "fyi",
        }
    }
}

#[derive(Debug, Clone, Copy, PartialEq, Eq, Structural)]
pub enum Intent {
    Inform,
    Ask,
    Escalate,
    Commit,
    Clarify,
    Resolve,
}

impl Intent {
    pub open spec fn spec_parse(s: Seq<char>) -> Intent {
        if s == "ask"@ {
            Intent::Ask
        } else if s == "escalate"@ {
            Intent::Escalate
        } else if s == "commit"@ {
            Intent::Commit
        } else if s == "clarify"@ {
            Intent::Clarify
        } else if s == "resolve"@ {
            Intent::Resolve
        } else {
            Intent::Inform
        }
    }

    /// Parses the wire name; an unknown name is the default, `Inform`.
    pub fn parse_or_default(s: &str) -> (r: Intent)
        ensures
            r == Intent::spec_parse(s@),
    {
        if str_eq(s, "ask") {
            Intent::Ask
        } else if str_eq(s, "escalate") {
            Intent::Escalate
        } else if str_eq(s, "commit") {
            Intent::Commit
        } else if str_eq(s, "clarify") {
            Intent::Clarify
        } else if str_eq(s, "resolve") {
            Intent::Resolve
        } else {
            Intent::Inform
        }
    }

    pub open spec fn spec_name(self) -> Seq<char> {
        match self {
            Intent::Inform => "inform"@,
            Intent::Ask => "ask"@,
            Intent::Escalate => "escalate"@,
            Intent::Commit => "commit"@,
            Intent::Clarify => "clarify"@,
            Intent::Resolve => "resolve"@,
        }
    }

    /// The snake_case wire name.
    pub fn as_str(&self) -> (r: &'static str)
        ensures
            r@ == self.spec_name(),
    {
        match self {
            Intent::Inform => "inform",
            Intent::Ask => "ask",
            Intent::Escalate => "escalate",
            Intent::Commit => "commit",
            Intent::Clarify => "clarify",
            Intent::Resolve => "resolve",
        }
    }
}

/// The project or client a message was assigned to, with the assignment's
/// confidence in thousandths.
#[derive(Debug, Clone)]
pub struct ProjectInfo {
    pub name: String,
    pub confidence: u32,
}

#[derive(Debug, Clone, Copy, PartialEq, Eq, Structural)]
pub enum Sentiment {
    Neutral,
    Positive,
    Concerned,
    Hostile,
}

impl Sentiment {
    pub open spec fn spec_parse(s: Seq<char>) -> Sentiment {
        if s == "positive"@ {
            Sentiment::Positive
        } else if s == "concerned"@ {
            Sentiment::Concerned
        } else if s == "hostile"@ {
            Sentiment::Hostile
        } else {
            Sentiment::Neutral
        }
    }

    /// Parses the wire name; an unknown name is the default, `Neutral`.
    pub fn parse_or_default(s: &str) -> (r: Sentiment)
        ensures
            r == Sentiment::spec_parse(s@),
    {
        if str_eq(s, "positive") {
            Sentiment::Positive
        } else if str_eq(s, "concerned") {
            Sentiment::Concerned
        } else if str_eq(s, "hostile") {
            Sentiment::Hostile
        } else {
            Sentiment::Neutral
        }
    }

    pub open spec fn spec_name(self) -> Seq<char> {
        match self {
            Sentiment::Neutral => "neutral"@,
            Sentiment::Positive => "positive"@,
            Sentiment::Concerned => "concerned"@,
            Sentiment::Hostile => "hostile"@,
        }
    }

    /// The snake_case wire name.
    pub fn as_str(&self) -> (r: &'static str)
        ensures
            r@ == self.spec_name(),
    {
        match self {
            Sentiment::Neutral => "neutral",
            Sentiment::Positive => "positive",
            Sentiment::Concerned => "concerned",
            Sentiment::Hostile => "hostile",
        }
    }
}

#[derive(Debug, Clone, Copy, PartialEq, Eq, Structural)]
pub enum Urgency {
    Low,
    Medium,
    High,
}

impl Urgency {
    pub open spec fn spec_parse(s: Seq<char>) -> Urgency {
        if s == "medium"@ {
            Urgency::Medium
        } else if s == "high"@ {
            Urgency::High
        } else {
            Urgency::Low
        }
    }

    /// Parses the wire name; an unknown name is the default, `Low`.
    pub fn parse_or_default(s: &str) -> (r: Urgency)
        ensures
            r == Urgency::spec_parse(s@),
    {
        if str_eq(s, "medium") {
            Urgency::Medium
        } else if str_eq(s, "high") {
            Urgency::High
        } else {
            Urgency::Low
        }
    }

    pub open spec fn spec_name(self) -> Seq<char> {
        match self {
            Urgency::Low => "low"@,
            Urgency::Medium => "medium"@,
            Urgency::High => "high"@,
        }
    }

    /// The snake_case wire name.
    pub fn as_str(&self) -> (r: &'static str)
        ensures
            r@ == self.spec_name(),
    {
        match self {
            Urgency::Low => "low",
            Urgency::Medium => "medium",
            Urgency::High => "high",
        }
    }
}

#[derive(Debug, Clone, Copy, PartialEq, Eq, Structural)]
pub enum WaitingOn {
    Me,
    Them,
    ThirdParty,
    /// Nobody is waited on; the wire name is "none".
    NoOne,
}

impl WaitingOn {
    pub open spec fn spec_parse(s: Seq<char>) -> WaitingOn {
        if s == "me"@ {
            WaitingOn::Me
        } else if s == "them"@ {
            WaitingOn::Them
        } else if s == "third_party"@ {
            WaitingOn::ThirdParty
        } else {
            WaitingOn::NoOne
        }
    }

    /// Parses the wire name; an unknown name is the default, `None`.
    pub fn parse_or_default(s: &str) -> (r: WaitingOn)
        ensures
            r == WaitingOn::spec_parse(s@),
    {
        if str_eq(s, "me") {
            WaitingOn::Me
        } else if str_eq(s, "them") {
            WaitingOn::Them
        } else if str_eq(s, "third_party") {
            WaitingOn::ThirdParty
        } else {
            WaitingOn::NoOne
        }
    }

    pub open spec fn spec_name(self) -> Seq<char> {
        match self {
            WaitingOn::Me => "me"@,
            WaitingOn::Them => "them"@,
            WaitingOn::ThirdParty => "third_party"@,
            WaitingOn::NoOne => "none"@,
        }
    }

    /// The snake_case wire name.
    pub fn as_str(&self) -> (r: &'static str)
        ensures
            r@ == self.spec_name(),
    {
        match self {
            WaitingOn::Me => "me",
            WaitingOn::Them => "them",
            WaitingOn::ThirdParty => "third_party",
            WaitingOn::NoOne => "none",
        }
    }
}

#[derive(Debug, Clone, Copy, PartialEq, Eq, Structural)]
pub enum Severity {
    Low,
    Medium,
    High,
}

impl Severity {
    pub open spec fn spec_parse(s: Seq<char>) -> Option<Severity> {
        if s == "low"@ {
            Some(Severity::Low)
        } else if s == "medium"@ {
            Some(Severity::Medium)
        } else if s == "high"@ {
            Some(Severity::High)
        } else {
            None
        }
    }

    /// Parses the wire name; an unknown name is `None` — the list entry
    /// that carried it is dropped, alone.
    pub fn parse(s: &str) -> (r: Option<Severity>)
        ensures
            r == Severity::spec_parse(s@),
    {
        if str_eq(s, "low") {
            Some(Severity::Low)
        } else if str_eq(s, "medium") {
            Some(Severity::Medium)
        } else if str_eq(s, "high") {
            Some(Severity::High)
        } else {
            None
        }
    }

    pub open spec fn spec_name(self) -> Seq<char> {
        match self {
            Severity::Low => "low"@,
            Severity::Medium => "medium"@,
            Severity::High => "high"@,
        }
    }

    /// The snake_case wire name.
    pub fn as_str(&self) -> (r: &'static str)
        ensures
            r@ == self.spec_name(),
    {
        match self {
            Severity::Low => "low",
            Severity::Medium => "medium",
            Severity::High => "high",
        }
    }
}

/// A risk called out by the extractor.
#[derive(Debug, Clone)]
pub struct Risk {
    pub title: String,
    pub details: String,
    pub owner: Option<String>,
    pub severity: Severity,
    pub confidence: u32,
}

/// An issue called out by the extractor.
#[derive(Debug, Clone)]
pub struct Issue {
    pub title: String,
    pub details: String,
    pub owner: Option<String>,
    pub severity: Severity,
    pub confidence: u32,
}

/// A blocker called out by the extractor.
#[derive(Debug, Clone)]
pub struct Blocker {
    pub title: String,
    pub details: String,
    pub owner: Option<String>,
    pub severity: Severity,
    pub confidence: u32,
}

/// A question the message leaves open.
#[derive(Debug, Clone)]
pub struct OpenQuestion {
    pub question: String,
    pub asked_by: Option<String>,
    pub owner: Option<String>,
    pub due_by: Option<i64>,
    pub confidence: u32,
}

/// A question the message answers.
#[derive(Debug, Clone)]
pub struct AnsweredQuestion {
    pub question: String,
    pub answer_summary: String,
    pub confidence: u32,
}

/// Where a fact came from: model, provider, the request identifier, and
/// when it was created.
#[derive(Debug, Clone)]
pub struct Provenance {
    pub model: String,
    pub provider: String,
    pub prompt_id: u128,
    pub created_at: i64,
}

/// A canonical entity in the knowledge graph.
#[derive(Debug, Clone)]
pub struct Entity {
    pub id: i64,
    pub entity_type: String,
    pub canonical_name: String,
    pub normalized_key: String,
    pub created_at: i64,
}

/// One mention of an entity in one message.
#[derive(Debug, Clone)]
pub struct EntityMention {
    pub id: i64,
    pub email_id: i64,
    pub entity_id: i64,
    pub role: EntityRole,
    pub confidence: u32,
}

#[derive(Debug, Clone, Copy, PartialEq, Eq, Structural)]
pub enum EntityRole {
    Sender,
    Recipient,
    Cc,
    Internal,
    External,
    Client,
    Vendor,
    Opposing,
    Unknown,
}

/// A relation between two entities, witnessed by one message.
#[derive(Debug, Clone)]
pub struct Edge {
    pub id: i64,
    pub src_entity_id: i64,
    pub dst_entity_id: i64,
    pub edge_type: String,
    pub email_id: i64,
    pub created_at: i64,
}

/// A stored prompt definition.
#[derive(Debug, Clone)]
pub struct Prompt {
    pub id: u128,
    pub name: String,
    pub kind: PromptKind,
    pub enabled: bool,
    pub schedule_cron: Option<String>,
    pub scope: PromptScope,
    pub model_pref: ModelPreference,
    pub prompt_template: String,
    pub json_schema: Option<String>,
    pub created_at: i64,
    pub updated_at: i64,
}

#[derive(Debug, Clone, Copy, PartialEq, Eq, Structural)]
pub enum PromptKind {
    Extraction,
    Periodic,
}

/// What a prompt applies to.
#[derive(Debug, Clone)]
pub struct PromptScope {
    pub folders: Option<Vec<String>>,
    pub date_range: Option<DateRange>,
    pub project: Option<String>,
    pub needs_response: Option<bool>,
    pub sentiment: Option<Vec<Sentiment>>,
    pub participants: Option<Vec<String>>,
}

/// A closed time range, unix seconds.
#[derive(Debug, Clone)]
pub struct DateRange {
    pub start: Option<i64>,
    pub end: Option<i64>,
}

/// Which model a prompt prefers; temperature in thousandths.
#[derive(Debug, Clone)]
pub struct ModelPreference {
    pub provider: String,
    pub model: String,
    pub temperature: u32,
}

/// One run of a periodic prompt; outputs kept as raw JSON text.
#[derive(Debug, Clone)]
pub struct PeriodicRun {
    pub id: i64,
    pub prompt_id: u128,
    pub run_at: i64,
    pub status: String,
    pub output_json: Option<String>,
    pub output_text: Option<String>,
    pub error_text: Option<String>,
}

} // verus!
