//! Fact extraction: the deterministic prompt, and the mapping from a
//! validated model answer into typed facts.
//!
//! The mapping applies one default table, at this single boundary:
//! - a missing or unreadable classification falls back to its documented
//!   default, never an error;
//! - a list defaults to empty; a malformed list entry is dropped, alone;
//! - `due_by` parses from RFC 3339, unparseable to `None`;
//! - a confidence is read in thousandths, clamped into [0, 1000], absent
//!   or unreadable as 0.

use vstd::prelude::*;
use vstd::utf8::encode_utf8;
use crate::errors::NoodleError;
use crate::json::JsonValue;
use crate::numbers::{spec_number_milli, spec_number_wf, unit_number};
use crate::provider::AiProvider;
use crate::schema::{spec_validate, ExtractionPipeline};
use crate::seqtools::lemma_filter_step;
use crate::types::{
    AnsweredQuestion, Blocker, Email, EmailFact, Intent, Issue, OpenQuestion, PrimaryType,
    ProjectInfo, Provenance, Risk, Sentiment, Severity, Urgency, WaitingOn,
};

verus! {

/// The unix-seconds reading of an RFC 3339 timestamp, named but not
/// defined here: it depends on the text alone.
pub uninterp spec fn rfc3339_epoch(s: Seq<char>) -> Option<i64>;

/// Relies on chrono::DateTime::parse_from_rfc3339 and timestamp(): `Some`
/// exactly when the text is a well-formed RFC 3339 timestamp, then its
/// unix seconds; a function of the text alone.
#[verifier::external_body]
fn parse_rfc3339_epoch(s: &str) -> (r: Option<i64>)
    ensures
        r == rfc3339_epoch(s@),
{
    chrono::DateTime::parse_from_rfc3339(s).ok().map(|dt| dt.timestamp())
}

/// The fixed extraction prompt: the rules and the response schema, then
/// the message's subject, sender and body.
pub open spec fn spec_extraction_prompt(subject: Seq<char>, sender: Seq<char>, body: Seq<char>) -> Seq<
    char,
> {
    "Analyze the following email and extract structured project health signals.\nYou must assign the email to exactly one client_or_project.\nClassify the primary_type, intent, urgency, and sentiment carefully based on the rules.\nExtract risks, issues, blockers, and questions.\n\nRules:\n- primary_type: 'update' (status/progress), 'request' (action required), 'decision' (announcement/approval), 'fyi' (informational).\n- intent: 'inform', 'ask', 'escalate', 'commit', 'clarify', 'resolve'.\n- urgency: 'low', 'medium', 'high'.\n- sentiment: 'neutral', 'positive', 'concerned', 'hostile'.\n- waiting_on: 'me', 'them', 'third_party', 'none'.\n- severity: 'low', 'medium', 'high'.\n- due_by: ISO8601 string or null.\n\nRespond ONLY with valid JSON matching this schema:\n{\n  \"primary_type\": \"update|request|decision|fyi\",\n  \"intent\": \"inform|ask|escalate|commit|clarify|resolve\",\n  \"urgency\": \"low|medium|high\",\n  \"due_by\": \"YYYY-MM-DDTHH:MM:SSZ\" or null,\n  \"sentiment\": \"neutral|positive|concerned|hostile\",\n  \"client_or_project\": { \"name\": \"string\", \"confidence\": 0.0-1.0 },\n  \"risks\": [\n    { \"title\": \"string\", \"details\": \"string\", \"owner\": \"string|null\", \"severity\": \"low|medium|high\", \"confidence\": 0.0-1.0 }\n  ],\n  \"issues\": [\n    { \"title\": \"string\", \"details\": \"string\", \"owner\": \"string|null\", \"severity\": \"low|medium|high\", \"confidence\": 0.0-1.0 }\n  ],\n  \"blockers\": [\n    { \"title\": \"string\", \"details\": \"string\", \"owner\": \"string|null\", \"severity\": \"low|medium|high\", \"confidence\": 0.0-1.0 }\n  ],\n  \"open_questions\": [\n    { \"question\": \"string\", \"asked_by\": \"string|null\", \"owner\": \"string|null\", \"due_by\": \"YYYY-MM-DDTHH:MM:SSZ\" or null, \"confidence\": 0.0-1.0 }\n  ],\n  \"answered_questions\": [\n    { \"question\": \"string\", \"answer_summary\": \"string\", \"confidence\": 0.0-1.0 }\n  ],\n  \"needs_response\": true|false,\n  \"waiting_on\": \"me|them|third_party|none\",\n  \"summary\": \"string (max 80 words)\",\n  \"key_points\": [\"string\"],\n  \"confidence\": 0.0-1.0\n}\n\nSubject: "@
        + subject + "\nFrom: "@ + sender + "\nBody: "@ + body
}

/// Builds the extraction prompt for a message.
pub fn extraction_prompt(email: &Email) -> (r: String)
    ensures
        r@ == spec_extraction_prompt(email.subject@, email.sender@, email.body_text@),
{
    let mut p = String::from_str(
        "Analyze the following email and extract structured project health signals.\nYou must assign the email to exactly one client_or_project.\nClassify the primary_type, intent, urgency, and sentiment carefully based on the rules.\nExtract risks, issues, blockers, and questions.\n\nRules:\n- primary_type: 'update' (status/progress), 'request' (action required), 'decision' (announcement/approval), 'fyi' (informational).\n- intent: 'inform', 'ask', 'escalate', 'commit', 'clarify', 'resolve'.\n- urgency: 'low', 'medium', 'high'.\n- sentiment: 'neutral', 'positive', 'concerned', 'hostile'.\n- waiting_on: 'me', 'them', 'third_party', 'none'.\n- severity: 'low', 'medium', 'high'.\n- due_by: ISO8601 string or null.\n\nRespond ONLY with valid JSON matching this schema:\n{\n  \"primary_type\": \"update|request|decision|fyi\",\n  \"intent\": \"inform|ask|escalate|commit|clarify|resolve\",\n  \"urgency\": \"low|medium|high\",\n  \"due_by\": \"YYYY-MM-DDTHH:MM:SSZ\" or null,\n  \"sentiment\": \"neutral|positive|concerned|hostile\",\n  \"client_or_project\": { \"name\": \"string\", \"confidence\": 0.0-1.0 },\n  \"risks\": [\n    { \"title\": \"string\", \"details\": \"string\", \"owner\": \"string|null\", \"severity\": \"low|medium|high\", \"confidence\": 0.0-1.0 }\n  ],\n  \"issues\": [\n    { \"title\": \"string\", \"details\": \"string\", \"owner\": \"string|null\", \"severity\": \"low|medium|high\", \"confidence\": 0.0-1.0 }\n  ],\n  \"blockers\": [\n    { \"title\": \"string\", \"details\": \"string\", \"owner\": \"string|null\", \"severity\": \"low|medium|high\", \"confidence\": 0.0-1.0 }\n  ],\n  \"open_questions\": [\n    { \"question\": \"string\", \"asked_by\": \"string|null\", \"owner\": \"string|null\", \"due_by\": \"YYYY-MM-DDTHH:MM:SSZ\" or null, \"confidence\": 0.0-1.0 }\n  ],\n  \"answered_questions\": [\n    { \"question\": \"string\", \"answer_summary\": \"string\", \"confidence\": 0.0-1.0 }\n  ],\n  \"needs_response\": true|false,\n  \"waiting_on\": \"me|them|third_party|none\",\n  \"summary\": \"string (max 80 words)\",\n  \"key_points\": [\"string\"],\n  \"confidence\": 0.0-1.0\n}\n\nSubject: ",
    );
    p.append(email.subject.as_str());
    p.append("\nFrom: ");
    p.append(email.sender.as_str());
    p.append("\nBody: ");
    p.append(email.body_text.as_str());
    p
}

/// A confidence field in thousandths: a well-formed number clamped into
/// [0, 1000], anything else 0.
pub open spec fn spec_conf_milli(field: Option<JsonValue>) -> u32 {
    match field {
        Some(JsonValue::Num(l)) => if spec_number_wf(encode_utf8(l@)) {
            spec_number_milli(encode_utf8(l@))
        } else {
            0
        },
        _ => 0,
    }
}

/// Reads a confidence field.
fn conf_milli(field: Option<&JsonValue>) -> (r: u32)
    ensures
        match field {
            Some(v) => r == spec_conf_milli(Some(*v)),
            None => r == 0,
        },
        r <= 1000,
{
    match field {
        Some(JsonValue::Num(l)) => match unit_number(l.as_str()) {
            Some(p) => p.1,
            None => 0,
        },
        _ => 0,
    }
}

/// An optional free-text field: a string kept, anything else `None`.
pub open spec fn spec_opt_string(field: Option<JsonValue>) -> Option<Seq<char>> {
    match field {
        Some(JsonValue::Str(s)) => Some(s@),
        _ => None,
    }
}

/// Reads an optional free-text field.
fn opt_string(field: Option<&JsonValue>) -> (r: Option<String>)
    ensures
        match field {
            Some(v) => match r {
                Some(s) => spec_opt_string(Some(*v)) == Some(s@),
                None => spec_opt_string(Some(*v)) is None,
            },
            None => r is None,
        },
{
    match field {
        Some(JsonValue::Str(s)) => Some(s.clone()),
        _ => None,
    }
}

/// A due timestamp: an RFC 3339 string's unix seconds, anything else
/// `None`.
pub open spec fn spec_due_epoch(field: Option<JsonValue>) -> Option<i64> {
    match field {
        Some(JsonValue::Str(s)) => rfc3339_epoch(s@),
        _ => None,
    }
}

/// Reads a due timestamp.
fn due_epoch(field: Option<&JsonValue>) -> (r: Option<i64>)
    ensures
        match field {
            Some(v) => r == spec_due_epoch(Some(*v)),
            None => r is None,
        },
{
    match field {
        Some(JsonValue::Str(s)) => parse_rfc3339_epoch(s.as_str()),
        _ => None,
    }
}

/// Whether a risk-like list entry is kept: title and details strings, a
/// readable severity.
pub open spec fn is_risk_entry(e: JsonValue) -> bool {
    &&& e.spec_get("title"@) matches Some(JsonValue::Str(_))
    &&& e.spec_get("details"@) matches Some(JsonValue::Str(_))
    &&& match e.spec_get("severity"@) {
        Some(JsonValue::Str(s)) => Severity::spec_parse(s@) is Some,
        _ => false,
    }
}

pub open spec fn risk_entry_pred() -> spec_fn(JsonValue) -> bool {
    |e: JsonValue| is_risk_entry(e)
}

/// The shared fields a kept risk-like entry maps to.
pub open spec fn risk_fields_match(
    e: JsonValue,
    title: Seq<char>,
    details: Seq<char>,
    owner: Option<String>,
    severity: Severity,
    confidence: u32,
) -> bool {
    &&& match e.spec_get("title"@) {
        Some(JsonValue::Str(s)) => title == s@,
        _ => false,
    }
    &&& match e.spec_get("details"@) {
        Some(JsonValue::Str(s)) => details == s@,
        _ => false,
    }
    &&& match spec_opt_string(e.spec_get("owner"@)) {
        Some(o) => owner matches Some(x) && x@ == o,
        None => owner is None,
    }
    &&& match e.spec_get("severity"@) {
        Some(JsonValue::Str(s)) => Some(severity) == Severity::spec_parse(s@),
        _ => false,
    }
    &&& confidence == spec_conf_milli(e.spec_get("confidence"@))
}

pub open spec fn risk_matches(e: JsonValue, r: Risk) -> bool {
    risk_fields_match(e, r.title@, r.details@, r.owner, r.severity, r.confidence)
}

pub open spec fn issue_matches(e: JsonValue, r: Issue) -> bool {
    risk_fields_match(e, r.title@, r.details@, r.owner, r.severity, r.confidence)
}

pub open spec fn blocker_matches(e: JsonValue, r: Blocker) -> bool {
    risk_fields_match(e, r.title@, r.details@, r.owner, r.severity, r.confidence)
}

/// Reads one risk-like entry's fields; `None` drops the entry.
fn read_risk_fields(e: &JsonValue) -> (r: Option<(String, String, Option<String>, Severity, u32)>)
    ensures
        match r {
            Some(f) => is_risk_entry(*e) && risk_fields_match(
                *e,
                f.0@,
                f.1@,
                f.2,
                f.3,
                f.4,
            ) && f.4 <= 1000,
            None => !is_risk_entry(*e),
        },
{
    let title = match e.get("title") {
        Some(JsonValue::Str(s)) => s.clone(),
        _ => {
            return None;
        },
    };
    let details = match e.get("details") {
        Some(JsonValue::Str(s)) => s.clone(),
        _ => {
            return None;
        },
    };
    let severity = match e.get("severity") {
        Some(JsonValue::Str(s)) => match Severity::parse(s.as_str()) {
            Some(sev) => sev,
            None => {
                return None;
            },
        },
        _ => {
            return None;
        },
    };
    let owner = opt_string(e.get("owner"));
    let confidence = conf_milli(e.get("confidence"));
    Some((title, details, owner, severity, confidence))
}

/// The kept entries of a list field.
pub open spec fn kept_entries(field: Option<JsonValue>, pred: spec_fn(JsonValue) -> bool) -> Seq<
    JsonValue,
> {
    match field {
        Some(JsonValue::Arr(a)) => a@.filter(pred),
        _ => Seq::empty(),
    }
}

/// Reads a risk list: malformed entries dropped, alone.
fn read_risks(field: Option<&JsonValue>) -> (out: Vec<Risk>)
    ensures
        ({
            let kept = kept_entries(
                match field {
                    Some(v) => Some(*v),
                    None => None,
                },
                risk_entry_pred(),
            );
            &&& out@.len() == kept.len()
            &&& forall|i: int| 0 <= i < kept.len() ==> risk_matches(kept[i], #[trigger] out@[i])
            &&& forall|i: int| 0 <= i < out@.len() ==> (#[trigger] out@[i]).confidence <= 1000
        }),
{
    let mut out: Vec<Risk> = Vec::new();
    match field {
        Some(JsonValue::Arr(entries)) => {
            let ghost full = entries@;
            let ghost pred = risk_entry_pred();
            let n = entries.len();
            assert(full.take(0) =~= Seq::<JsonValue>::empty());
            assert(full.take(0).filter(pred) =~= Seq::<JsonValue>::empty());
            for i in 0..n
                invariant
                    n == full.len(),
                    entries@ == full,
                    pred == risk_entry_pred(),
                    out@.len() == full.take(i as int).filter(pred).len(),
                    forall|j: int|
                        0 <= j < out@.len() ==> risk_matches(
                            full.take(i as int).filter(pred)[j],
                            #[trigger] out@[j],
                        ),
                    forall|j: int| 0 <= j < out@.len() ==> (#[trigger] out@[j]).confidence <= 1000,
            {
                proof {
                    lemma_filter_step(full, pred, i as int);
                }
                match read_risk_fields(&entries[i]) {
                    Some(f) => {
                        out.push(
                            Risk {
                                title: f.0,
                                details: f.1,
                                owner: f.2,
                                severity: f.3,
                                confidence: f.4,
                            },
                        );
                    },
                    None => {},
                }
            }
            proof {
                assert(full.take(n as int) =~= full);
            }
        },
        _ => {},
    }
    out
}

/// Reads an issue list: malformed entries dropped, alone.
fn read_issues(field: Option<&JsonValue>) -> (out: Vec<Issue>)
    ensures
        ({
            let kept = kept_entries(
                match field {
                    Some(v) => Some(*v),
                    None => None,
                },
                risk_entry_pred(),
            );
            &&& out@.len() == kept.len()
            &&& forall|i: int| 0 <= i < kept.len() ==> issue_matches(kept[i], #[trigger] out@[i])
            &&& forall|i: int| 0 <= i < out@.len() ==> (#[trigger] out@[i]).confidence <= 1000
        }),
{
    let mut out: Vec<Issue> = Vec::new();
    match field {
        Some(JsonValue::Arr(entries)) => {
            let ghost full = entries@;
            let ghost pred = risk_entry_pred();
            let n = entries.len();
            assert(full.take(0) =~= Seq::<JsonValue>::empty());
            assert(full.take(0).filter(pred) =~= Seq::<JsonValue>::empty());
            for i in 0..n
                invariant
                    n == full.len(),
                    entries@ == full,
                    pred == risk_entry_pred(),
                    out@.len() == full.take(i as int).filter(pred).len(),
                    forall|j: int|
                        0 <= j < out@.len() ==> issue_matches(
                            full.take(i as int).filter(pred)[j],
                            #[trigger] out@[j],
                        ),
                    forall|j: int| 0 <= j < out@.len() ==> (#[trigger] out@[j]).confidence <= 1000,
            {
                proof {
                    lemma_filter_step(full, pred, i as int);
                }
                match read_risk_fields(&entries[i]) {
                    Some(f) => {
                        out.push(
                            Issue {
                                title: f.0,
                                details: f.1,
                                owner: f.2,
                                severity: f.3,
                                confidence: f.4,
                            },
                        );
                    },
                    None => {},
                }
            }
            proof {
                assert(full.take(n as int) =~= full);
            }
        },
        _ => {},
    }
    out
}

/// Reads a blocker list: malformed entries dropped, alone.
fn read_blockers(field: Option<&JsonValue>) -> (out: Vec<Blocker>)
    ensures
        ({
            let kept = kept_entries(
                match field {
                    Some(v) => Some(*v),
                    None => None,
                },
                risk_entry_pred(),
            );
            &&& out@.len() == kept.len()
            &&& forall|i: int| 0 <= i < kept.len() ==> blocker_matches(kept[i], #[trigger] out@[i])
            &&& forall|i: int| 0 <= i < out@.len() ==> (#[trigger] out@[i]).confidence <= 1000
        }),
{
    let mut out: Vec<Blocker> = Vec::new();
    match field {
        Some(JsonValue::Arr(entries)) => {
            let ghost full = entries@;
            let ghost pred = risk_entry_pred();
            let n = entries.len();
            assert(full.take(0) =~= Seq::<JsonValue>::empty());
            assert(full.take(0).filter(pred) =~= Seq::<JsonValue>::empty());
            for i in 0..n
                invariant
                    n == full.len(),
                    entries@ == full,
                    pred == risk_entry_pred(),
                    out@.len() == full.take(i as int).filter(pred).len(),
                    forall|j: int|
                        0 <= j < out@.len() ==> blocker_matches(
                            full.take(i as int).filter(pred)[j],
                            #[trigger] out@[j],
                        ),
                    forall|j: int| 0 <= j < out@.len() ==> (#[trigger] out@[j]).confidence <= 1000,
            {
                proof {
                    lemma_filter_step(full, pred, i as int);
                }
                match read_risk_fields(&entries[i]) {
                    Some(f) => {
                        out.push(
                            Blocker {
                                title: f.0,
                                details: f.1,
                                owner: f.2,
                                severity: f.3,
                                confidence: f.4,
                            },
                        );
                    },
                    None => {},
                }
            }
            proof {
                assert(full.take(n as int) =~= full);
            }
        },
        _ => {},
    }
    out
}

/// Whether a key-point entry is kept: it is a string.
pub open spec fn is_string_entry(e: JsonValue) -> bool {
    e matches JsonValue::Str(_)
}

pub open spec fn string_entry_pred() -> spec_fn(JsonValue) -> bool {
    |e: JsonValue| is_string_entry(e)
}

pub open spec fn string_entry_val(e: JsonValue) -> Seq<char> {
    match e {
        JsonValue::Str(s) => s@,
        _ => Seq::empty(),
    }
}

/// Reads a list of strings: non-string entries dropped, alone.
fn read_strings(field: Option<&JsonValue>) -> (out: Vec<String>)
    ensures
        ({
            let kept = kept_entries(
                match field {
                    Some(v) => Some(*v),
                    None => None,
                },
                string_entry_pred(),
            );
            &&& out@.len() == kept.len()
            &&& forall|i: int|
                0 <= i < kept.len() ==> (#[trigger] out@[i])@ == string_entry_val(kept[i])
        }),
{
    let mut out: Vec<String> = Vec::new();
    match field {
        Some(JsonValue::Arr(entries)) => {
            let ghost full = entries@;
            let ghost pred = string_entry_pred();
            let n = entries.len();
            assert(full.take(0) =~= Seq::<JsonValue>::empty());
            assert(full.take(0).filter(pred) =~= Seq::<JsonValue>::empty());
            for i in 0..n
                invariant
                    n == full.len(),
                    entries@ == full,
                    pred == string_entry_pred(),
                    out@.len() == full.take(i as int).filter(pred).len(),
                    forall|j: int|
                        0 <= j < out@.len() ==> (#[trigger] out@[j])@ == string_entry_val(
                            full.take(i as int).filter(pred)[j],
                        ),
            {
                proof {
                    lemma_filter_step(full, pred, i as int);
                }
                match &entries[i] {
                    JsonValue::Str(s) => {
                        out.push(s.clone());
                    },
                    _ => {},
                }
            }
            proof {
                assert(full.take(n as int) =~= full);
            }
        },
        _ => {},
    }
    out
}

/// Whether an open-question entry is kept: the question is a string.
pub open spec fn is_open_question_entry(e: JsonValue) -> bool {
    e.spec_get("question"@) matches Some(JsonValue::Str(_))
}

pub open spec fn open_question_pred() -> spec_fn(JsonValue) -> bool {
    |e: JsonValue| is_open_question_entry(e)
}

pub open spec fn open_question_matches(e: JsonValue, q: OpenQuestion) -> bool {
    &&& match e.spec_get("question"@) {
        Some(JsonValue::Str(s)) => q.question@ == s@,
        _ => false,
    }
    &&& match spec_opt_string(e.spec_get("asked_by"@)) {
        Some(o) => q.asked_by matches Some(x) && x@ == o,
        None => q.asked_by is None,
    }
    &&& match spec_opt_string(e.spec_get("owner"@)) {
        Some(o) => q.owner matches Some(x) && x@ == o,
        None => q.owner is None,
    }
    &&& q.due_by == spec_due_epoch(e.spec_get("due_by"@))
    &&& q.confidence == spec_conf_milli(e.spec_get("confidence"@))
}

/// Reads an open-question list: entries without a question dropped, alone.
fn read_open_questions(field: Option<&JsonValue>) -> (out: Vec<OpenQuestion>)
    ensures
        ({
            let kept = kept_entries(
                match field {
                    Some(v) => Some(*v),
                    None => None,
                },
                open_question_pred(),
            );
            &&& out@.len() == kept.len()
            &&& forall|i: int|
                0 <= i < kept.len() ==> open_question_matches(kept[i], #[trigger] out@[i])
            &&& forall|i: int| 0 <= i < out@.len() ==> (#[trigger] out@[i]).confidence <= 1000
        }),
{
    let mut out: Vec<OpenQuestion> = Vec::new();
    match field {
        Some(JsonValue::Arr(entries)) => {
            let ghost full = entries@;
            let ghost pred = open_question_pred();
            let n = entries.len();
            assert(full.take(0) =~= Seq::<JsonValue>::empty());
            assert(full.take(0).filter(pred) =~= Seq::<JsonValue>::empty());
            for i in 0..n
                invariant
                    n == full.len(),
                    entries@ == full,
                    pred == open_question_pred(),
                    out@.len() == full.take(i as int).filter(pred).len(),
                    forall|j: int|
                        0 <= j < out@.len() ==> open_question_matches(
                            full.take(i as int).filter(pred)[j],
                            #[trigger] out@[j],
                        ),
                    forall|j: int| 0 <= j < out@.len() ==> (#[trigger] out@[j]).confidence <= 1000,
            {
                proof {
                    lemma_filter_step(full, pred, i as int);
                }
                let e = &entries[i];
                match e.get("question") {
                    Some(JsonValue::Str(s)) => {
                        let question = s.clone();
                        let asked_by = opt_string(e.get("asked_by"));
                        let owner = opt_string(e.get("owner"));
                        let due_by = due_epoch(e.get("due_by"));
                        let confidence = conf_milli(e.get("confidence"));
                        out.push(OpenQuestion { question, asked_by, owner, due_by, confidence });
                    },
                    _ => {},
                }
            }
            proof {
                assert(full.take(n as int) =~= full);
            }
        },
        _ => {},
    }
    out
}

/// Whether an answered-question entry is kept: question and answer are
/// strings.
pub open spec fn is_answered_question_entry(e: JsonValue) -> bool {
    &&& e.spec_get("question"@) matches Some(JsonValue::Str(_))
    &&& e.spec_get("answer_summary"@) matches Some(JsonValue::Str(_))
}

pub open spec fn answered_question_pred() -> spec_fn(JsonValue) -> bool {
    |e: JsonValue| is_answered_question_entry(e)
}

pub open spec fn answered_question_matches(e: JsonValue, q: AnsweredQuestion) -> bool {
    &&& match e.spec_get("question"@) {
        Some(JsonValue::Str(s)) => q.question@ == s@,
        _ => false,
    }
    &&& match e.spec_get("answer_summary"@) {
        Some(JsonValue::Str(s)) => q.answer_summary@ == s@,
        _ => false,
    }
    &&& q.confidence == spec_conf_milli(e.spec_get("confidence"@))
}

/// Reads an answered-question list: incomplete entries dropped, alone.
fn read_answered_questions(field: Option<&JsonValue>) -> (out: Vec<AnsweredQuestion>)
    ensures
        ({
            let kept = kept_entries(
                match field {
                    Some(v) => Some(*v),
                    None => None,
                },
                answered_question_pred(),
            );
            &&& out@.len() == kept.len()
            &&& forall|i: int|
                0 <= i < kept.len() ==> answered_question_matches(kept[i], #[trigger] out@[i])
            &&& forall|i: int| 0 <= i < out@.len() ==> (#[trigger] out@[i]).confidence <= 1000
        }),
{
    let mut out: Vec<AnsweredQuestion> = Vec::new();
    match field {
        Some(JsonValue::Arr(entries)) => {
            let ghost full = entries@;
            let ghost pred = answered_question_pred();
            let n = entries.len();
            assert(full.take(0) =~= Seq::<JsonValue>::empty());
            assert(full.take(0).filter(pred) =~= Seq::<JsonValue>::empty());
            for i in 0..n
                invariant
                    n == full.len(),
                    entries@ == full,
                    pred == answered_question_pred(),
                    out@.len() == full.take(i as int).filter(pred).len(),
                    forall|j: int|
                        0 <= j < out@.len() ==> answered_question_matches(
                            full.take(i as int).filter(pred)[j],
                            #[trigger] out@[j],
                        ),
                    forall|j: int| 0 <= j < out@.len() ==> (#[trigger] out@[j]).confidence <= 1000,
            {
                proof {
                    lemma_filter_step(full, pred, i as int);
                }
                let e = &entries[i];
                let question = match e.get("question") {
                    Some(JsonValue::Str(s)) => Some(s.clone()),
                    _ => None,
                };
                let answer = match e.get("answer_summary") {
                    Some(JsonValue::Str(s)) => Some(s.clone()),
                    _ => None,
                };
                match (question, answer) {
                    (Some(question), Some(answer_summary)) => {
                        let confidence = conf_milli(e.get("confidence"));
                        out.push(AnsweredQuestion { question, answer_summary, confidence });
                    },
                    _ => {},
                }
            }
            proof {
                assert(full.take(n as int) =~= full);
            }
        },
        _ => {},
    }
    out
}

/// How the project assignment maps: the object's "name" string with its
/// confidence, or the documented default, "Unknown" at confidence 0.
pub open spec fn project_matches(field: Option<JsonValue>, p: ProjectInfo) -> bool {
    match field {
        Some(obj) => match obj.spec_get("name"@) {
            Some(JsonValue::Str(s)) => p.name@ == s@ && p.confidence == spec_conf_milli(
                obj.spec_get("confidence"@),
            ),
            _ => p.name@ == "Unknown"@ && p.confidence == 0,
        },
        None => p.name@ == "Unknown"@ && p.confidence == 0,
    }
}

/// A classification field's string, an empty sequence where there is none.
pub open spec fn spec_enum_field(field: Option<JsonValue>) -> Seq<char> {
    match field {
        Some(JsonValue::Str(s)) => s@,
        _ => Seq::empty(),
    }
}

/// How a validated answer maps into a fact: the default table of the
/// module documentation, field for field.
pub open spec fn fact_matches(v: JsonValue, f: EmailFact) -> bool {
    &&& f.primary_type == PrimaryType::spec_parse(spec_enum_field(v.spec_get("primary_type"@)))
    &&& f.intent == Intent::spec_parse(spec_enum_field(v.spec_get("intent"@)))
    &&& f.urgency == Urgency::spec_parse(spec_enum_field(v.spec_get("urgency"@)))
    &&& f.sentiment == Sentiment::spec_parse(spec_enum_field(v.spec_get("sentiment"@)))
    &&& f.waiting_on == WaitingOn::spec_parse(spec_enum_field(v.spec_get("waiting_on"@)))
    &&& f.needs_response == (match v.spec_get("needs_response"@) {
        Some(JsonValue::Bool(b)) => b,
        _ => false,
    })
    &&& f.summary@ == (match v.spec_get("summary"@) {
        Some(JsonValue::Str(s)) => s@,
        _ => Seq::<char>::empty(),
    })
    &&& f.due_by == spec_due_epoch(v.spec_get("due_by"@))
    &&& f.confidence == spec_conf_milli(v.spec_get("confidence"@))
    &&& project_matches(v.spec_get("client_or_project"@), f.client_or_project)
    &&& ({
        let kept = kept_entries(v.spec_get("key_points"@), string_entry_pred());
        f.key_points@.len() == kept.len() && forall|i: int|
            0 <= i < kept.len() ==> (#[trigger] f.key_points@[i])@ == string_entry_val(kept[i])
    })
    &&& ({
        let kept = kept_entries(v.spec_get("risks"@), risk_entry_pred());
        f.risks@.len() == kept.len() && forall|i: int|
            0 <= i < kept.len() ==> risk_matches(kept[i], #[trigger] f.risks@[i])
    })
    &&& ({
        let kept = kept_entries(v.spec_get("issues"@), risk_entry_pred());
        f.issues@.len() == kept.len() && forall|i: int|
            0 <= i < kept.len() ==> issue_matches(kept[i], #[trigger] f.issues@[i])
    })
    &&& ({
        let kept = kept_entries(v.spec_get("blockers"@), risk_entry_pred());
        f.blockers@.len() == kept.len() && forall|i: int|
            0 <= i < kept.len() ==> blocker_matches(kept[i], #[trigger] f.blockers@[i])
    })
    &&& ({
        let kept = kept_entries(v.spec_get("open_questions"@), open_question_pred());
        f.open_questions@.len() == kept.len() && forall|i: int|
            0 <= i < kept.len() ==> open_question_matches(kept[i], #[trigger] f.open_questions@[i])
    })
    &&& ({
        let kept = kept_entries(v.spec_get("answered_questions"@), answered_question_pred());
        f.answered_questions@.len() == kept.len() && forall|i: int|
            0 <= i < kept.len() ==> answered_question_matches(
                kept[i],
                #[trigger] f.answered_questions@[i],
            )
    })
}

/// Reads a classification field's string, empty where there is none.
fn enum_field(field: Option<&JsonValue>) -> (r: String)
    ensures
        match field {
            Some(v) => r@ == spec_enum_field(Some(*v)),
            None => r@ == Seq::<char>::empty(),
        },
{
    let r = match field {
        Some(JsonValue::Str(s)) => s.clone(),
        _ => String::new(),
    };
    r
}

/// Maps a validated answer into a typed fact, applying the default table.
pub fn map_fact(v: &JsonValue, email_id: i64, now: i64, prompt_id: u128) -> (r: EmailFact)
    ensures
        fact_matches(*v, r),
        r.email_id == email_id,
        r.created_at == now,
        r.provenance.prompt_id == prompt_id,
        r.provenance.created_at == now,
        r.provenance.model@ == "local"@,
        r.provenance.provider@ == "local"@,
        r.wf(),
{
    let primary_type = PrimaryType::parse_or_default(enum_field(v.get("primary_type")).as_str());
    let intent = Intent::parse_or_default(enum_field(v.get("intent")).as_str());
    let urgency = Urgency::parse_or_default(enum_field(v.get("urgency")).as_str());
    let sentiment = Sentiment::parse_or_default(enum_field(v.get("sentiment")).as_str());
    let waiting_on = WaitingOn::parse_or_default(enum_field(v.get("waiting_on")).as_str());
    let needs_response = match v.get("needs_response") {
        Some(JsonValue::Bool(b)) => *b,
        _ => false,
    };
    let summary = match v.get("summary") {
        Some(JsonValue::Str(s)) => s.clone(),
        _ => String::new(),
    };
    let due_by = due_epoch(v.get("due_by"));
    let confidence = conf_milli(v.get("confidence"));
    let client_or_project = match v.get("client_or_project") {
        Some(obj) => match obj.get("name") {
            Some(JsonValue::Str(s)) => ProjectInfo {
                name: s.clone(),
                confidence: conf_milli(obj.get("confidence")),
            },
            _ => ProjectInfo { name: String::from_str("Unknown"), confidence: 0 },
        },
        None => ProjectInfo { name: String::from_str("Unknown"), confidence: 0 },
    };
    let key_points = read_strings(v.get("key_points"));
    let risks = read_risks(v.get("risks"));
    let issues = read_issues(v.get("issues"));
    let blockers = read_blockers(v.get("blockers"));
    let open_questions = read_open_questions(v.get("open_questions"));
    let answered_questions = read_answered_questions(v.get("answered_questions"));
    EmailFact {
        email_id,
        primary_type,
        intent,
        client_or_project,
        sentiment,
        urgency,
        due_by,
        needs_response,
        waiting_on,
        summary,
        key_points,
        risks,
        issues,
        blockers,
        open_questions,
        answered_questions,
        confidence,
        provenance: Provenance {
            model: String::from_str("local"),
            provider: String::from_str("local"),
            prompt_id,
            created_at: now,
        },
        created_at: now,
    }
}

/// Whether a fact is the documented mapping of some answer that passed
/// schema validation.
pub open spec fn fact_from_validated(f: EmailFact) -> bool {
    exists|v: JsonValue| spec_validate(v) && #[trigger] fact_matches(v, f)
}

/// Extracts the facts of one message: builds the prompt, runs the
/// backend with the one-shot repair, and maps the validated answer. The
/// fact, when one is returned, is the documented mapping of a validated
/// answer, carries the message's relational id, and is well formed.
pub fn extract_facts<P: AiProvider>(
    pipeline: &ExtractionPipeline,
    ai: &P,
    email: &Email,
    now: i64,
    prompt_id: u128,
) -> (r: Result<EmailFact, NoodleError>)
    ensures
        match r {
            Ok(f) => {
                &&& f.wf()
                &&& f.email_id == email.id
                &&& f.created_at == now
                &&& fact_from_validated(f)
            },
            Err(e) => e is AI || e == NoodleError::SchemaRepairFailed,
        },
{
    let prompt = extraction_prompt(email);
    let json = match pipeline.extract_with_repair(ai, prompt.as_str()) {
        Ok(v) => v,
        Err(e) => {
            return Err(e);
        },
    };
    let fact = map_fact(&json, email.id, now, prompt_id);
    proof {
        assert(spec_validate(json) && fact_matches(json, fact));
        assert(fact_from_validated(fact));
    }
    Ok(fact)
}

} // verus!
