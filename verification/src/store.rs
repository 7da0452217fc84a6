//! Reference stores: the relational store and the vector index, as the
//! pipeline relies on them.
//!
//! These in-memory stores realize the narrow save/query contracts the
//! pipeline is written against: the relational store upserts messages on
//! the unique key `(store_id, entry_id)` and facts on the parent id, the
//! vector store overwrites at the stable 64-bit identity. The application
//! binds the same contracts to its database engines; tests and proofs run
//! against these.

use vstd::prelude::*;
use crate::ident::{stable_vector_id, stable_vector_id_of};
use crate::json::str_eq;
use crate::provider::Embedding;
use crate::types::{Email, EmailFact};
use vstd::string::StringSliceAdditionalSpecFns;

verus! {

/// Rows a store can hold; keeps freshly assigned ids within every
/// machine's index range.
pub const MAX_ROWS: usize = 0x7fff_0000;

/// Whether a message row carries the given source-scoped key.
pub open spec fn email_has_key(e: Email, sid: Seq<char>, eid: Seq<char>) -> bool {
    e.store_id@ == sid && e.entry_id@ == eid
}

/// Index of the first row with the key, `-1` when there is none.
pub open spec fn spec_email_index(emails: Seq<Email>, sid: Seq<char>, eid: Seq<char>) -> int
    decreases emails.len(),
{
    if emails.len() == 0 {
        -1
    } else if email_has_key(emails.first(), sid, eid) {
        0
    } else {
        let r = spec_email_index(emails.drop_first(), sid, eid);
        if r == -1 {
            -1
        } else {
            r + 1
        }
    }
}

pub proof fn lemma_email_index_facts(emails: Seq<Email>, sid: Seq<char>, eid: Seq<char>)
    ensures
        -1 <= spec_email_index(emails, sid, eid) < emails.len(),
        spec_email_index(emails, sid, eid) >= 0 ==> email_has_key(
            emails[spec_email_index(emails, sid, eid)],
            sid,
            eid,
        ),
        spec_email_index(emails, sid, eid) == -1 ==> forall|i: int|
            0 <= i < emails.len() ==> !email_has_key(#[trigger] emails[i], sid, eid),
    decreases emails.len(),
{
    if emails.len() > 0 && !email_has_key(emails.first(), sid, eid) {
        lemma_email_index_facts(emails.drop_first(), sid, eid);
        if spec_email_index(emails, sid, eid) == -1 {
            assert forall|i: int|
                0 <= i < emails.len() implies !email_has_key(#[trigger] emails[i], sid, eid) by {
                if i > 0 {
                    assert(emails[i] == emails.drop_first()[i - 1]);
                }
            }
        }
    }
}

/// The merged row an update leaves: the mutable fields from the incoming
/// message, everything else from the row that was there.
pub open spec fn spec_merge_email(row: Email, email: Email) -> Email {
    Email {
        folder: email.folder,
        subject: email.subject,
        received_at: email.received_at,
        body_text: email.body_text,
        last_indexed_at: email.last_indexed_at,
        hash: email.hash,
        ..row
    }
}

/// What one upsert leaves: a new row with the next id, or the keyed row
/// with its mutable fields replaced.
pub open spec fn spec_upsert_email(emails: Seq<Email>, email: Email) -> Seq<Email> {
    let i = spec_email_index(emails, email.store_id@, email.entry_id@);
    if i == -1 {
        emails.push(Email { id: (emails.len() + 1) as i64, ..email })
    } else {
        emails.update(i, spec_merge_email(emails[i], email))
    }
}

/// Well-formed message rows: ids are the row number, keys are unique.
pub open spec fn wf_emails(emails: Seq<Email>) -> bool {
    &&& emails.len() < MAX_ROWS
    &&& forall|i: int| 0 <= i < emails.len() ==> (#[trigger] emails[i]).id == i + 1
    &&& forall|i: int, j: int|
        0 <= i < emails.len() && 0 <= j < emails.len() && email_has_key(
            #[trigger] emails[i],
            #[trigger] emails[j].store_id@,
            emails[j].entry_id@,
        ) ==> i == j
}

pub proof fn lemma_upsert_email_facts(emails: Seq<Email>, email: Email)
    requires
        wf_emails(emails),
        emails.len() + 1 < MAX_ROWS,
    ensures
        wf_emails(spec_upsert_email(emails, email)),
        spec_email_index(spec_upsert_email(emails, email), email.store_id@, email.entry_id@) >= 0,
        spec_upsert_email(emails, email).len() == if spec_email_index(
            emails,
            email.store_id@,
            email.entry_id@,
        ) == -1 {
            emails.len() + 1
        } else {
            emails.len() as nat
        },
        forall|sid: Seq<char>, eid: Seq<char>|
            #[trigger] spec_email_index(emails, sid, eid) >= 0 ==> spec_email_index(
                spec_upsert_email(emails, email),
                sid,
                eid,
            ) >= 0,
{
    let sid = email.store_id@;
    let eid = email.entry_id@;
    let i = spec_email_index(emails, sid, eid);
    lemma_email_index_facts(emails, sid, eid);
    let out = spec_upsert_email(emails, email);
    if i == -1 {
        assert forall|a: int, b: int|
            0 <= a < out.len() && 0 <= b < out.len() && email_has_key(
                #[trigger] out[a],
                #[trigger] out[b].store_id@,
                out[b].entry_id@,
            ) implies a == b by {
            if a < emails.len() && b < emails.len() {
            } else if a < emails.len() && b == emails.len() {
                assert(!email_has_key(emails[a], sid, eid));
            } else if a == emails.len() && b < emails.len() {
                assert(!email_has_key(emails[b], sid, eid));
                assert(email_has_key(out[a], sid, eid));
            }
        }
        lemma_index_present(out, sid, eid, emails.len() as int);
    } else {
        assert(email_has_key(out[i], sid, eid));
        assert forall|a: int, b: int|
            0 <= a < out.len() && 0 <= b < out.len() && email_has_key(
                #[trigger] out[a],
                #[trigger] out[b].store_id@,
                out[b].entry_id@,
            ) implies a == b by {
            assert(forall|k: int|
                0 <= k < out.len() ==> (#[trigger] out[k]).store_id@ == emails[k].store_id@
                    && out[k].entry_id@ == emails[k].entry_id@);
        }
        lemma_index_present(out, sid, eid, i);
    }
    assert forall|s2: Seq<char>, e2: Seq<char>|
        #[trigger] spec_email_index(emails, s2, e2) >= 0 implies spec_email_index(
        out,
        s2,
        e2,
    ) >= 0 by {
        lemma_email_index_facts(emails, s2, e2);
        let j = spec_email_index(emails, s2, e2);
        if i == -1 {
            assert(email_has_key(out[j], s2, e2));
        } else {
            if j == i {
                assert(email_has_key(out[j], s2, e2));
            } else {
                assert(email_has_key(out[j], s2, e2));
            }
        }
        lemma_index_present(out, s2, e2, j);
    }
}

/// A row with the key at some index means the search finds one.
pub proof fn lemma_index_present(emails: Seq<Email>, sid: Seq<char>, eid: Seq<char>, w: int)
    requires
        0 <= w < emails.len(),
        email_has_key(emails[w], sid, eid),
    ensures
        spec_email_index(emails, sid, eid) >= 0,
    decreases emails.len(),
{
    if !email_has_key(emails.first(), sid, eid) {
        lemma_index_present(emails.drop_first(), sid, eid, w - 1);
    }
}

/// Index of the first fact row for a parent id, `-1` when there is none.
pub open spec fn spec_fact_index(facts: Seq<EmailFact>, email_id: i64) -> int
    decreases facts.len(),
{
    if facts.len() == 0 {
        -1
    } else if facts.first().email_id == email_id {
        0
    } else {
        let r = spec_fact_index(facts.drop_first(), email_id);
        if r == -1 {
            -1
        } else {
            r + 1
        }
    }
}

pub proof fn lemma_fact_index_facts(facts: Seq<EmailFact>, email_id: i64)
    ensures
        -1 <= spec_fact_index(facts, email_id) < facts.len(),
        spec_fact_index(facts, email_id) >= 0 ==> facts[spec_fact_index(
            facts,
            email_id,
        )].email_id == email_id,
        spec_fact_index(facts, email_id) == -1 ==> forall|i: int|
            0 <= i < facts.len() ==> (#[trigger] facts[i]).email_id != email_id,
    decreases facts.len(),
{
    if facts.len() > 0 && facts.first().email_id != email_id {
        lemma_fact_index_facts(facts.drop_first(), email_id);
        if spec_fact_index(facts, email_id) == -1 {
            assert forall|i: int|
                0 <= i < facts.len() implies (#[trigger] facts[i]).email_id != email_id by {
                if i > 0 {
                    assert(facts[i] == facts.drop_first()[i - 1]);
                }
            }
        }
    }
}

pub proof fn lemma_fact_present(facts: Seq<EmailFact>, email_id: i64, w: int)
    requires
        0 <= w < facts.len(),
        facts[w].email_id == email_id,
    ensures
        spec_fact_index(facts, email_id) >= 0,
    decreases facts.len(),
{
    if facts.first().email_id != email_id {
        lemma_fact_present(facts.drop_first(), email_id, w - 1);
    }
}

/// What one facts upsert leaves: a new row, or the keyed row replaced —
/// its original creation time kept.
pub open spec fn spec_upsert_fact(facts: Seq<EmailFact>, fact: EmailFact) -> Seq<EmailFact> {
    let i = spec_fact_index(facts, fact.email_id);
    if i == -1 {
        facts.push(fact)
    } else {
        facts.update(i, EmailFact { created_at: facts[i].created_at, ..fact })
    }
}

/// Well-formed fact rows: one per parent id.
pub open spec fn wf_facts(facts: Seq<EmailFact>) -> bool {
    forall|i: int, j: int|
        0 <= i < facts.len() && 0 <= j < facts.len() && (#[trigger] facts[i]).email_id == (
        #[trigger] facts[j]).email_id ==> i == j
}

pub proof fn lemma_upsert_fact_facts(facts: Seq<EmailFact>, fact: EmailFact)
    requires
        wf_facts(facts),
    ensures
        wf_facts(spec_upsert_fact(facts, fact)),
        spec_fact_index(spec_upsert_fact(facts, fact), fact.email_id) >= 0,
        spec_upsert_fact(facts, fact).len() == if spec_fact_index(facts, fact.email_id) == -1 {
            facts.len() + 1
        } else {
            facts.len() as nat
        },
{
    let i = spec_fact_index(facts, fact.email_id);
    lemma_fact_index_facts(facts, fact.email_id);
    let out = spec_upsert_fact(facts, fact);
    if i == -1 {
        lemma_fact_present(out, fact.email_id, facts.len() as int);
    } else {
        lemma_fact_present(out, fact.email_id, i);
    }
}

pub proof fn lemma_config_index_bounds(config: Seq<(String, String)>, key: Seq<char>)
    ensures
        -1 <= RelationalStore::spec_config_index(config, key) < config.len(),
        RelationalStore::spec_config_index(config, key) >= 0 ==> config[RelationalStore::spec_config_index(config, key)].0@ == key,
    decreases config.len(),
{
    if config.len() > 0 && config.first().0@ != key {
        lemma_config_index_bounds(config.drop_first(), key);
    }
}

/// A reduced message row, as list queries hand it out.
#[derive(Debug, Clone)]
pub struct EmailRow {
    pub id: i64,
    pub subject: String,
    pub sender: String,
    pub received_at: i64,
    pub body_text: String,
}

/// The relational store: messages keyed by `(store_id, entry_id)`, facts
/// keyed by the parent id, and the configuration table.
pub struct RelationalStore {
    emails: Vec<Email>,
    facts: Vec<EmailFact>,
    config: Vec<(String, String)>,
}

impl RelationalStore {
    pub closed spec fn emails(self) -> Seq<Email> {
        self.emails@
    }

    pub closed spec fn facts(self) -> Seq<EmailFact> {
        self.facts@
    }

    pub closed spec fn config(self) -> Seq<(String, String)> {
        self.config@
    }

    /// Row invariants: sequential ids, unique message keys, one fact row
    /// per parent.
    pub open spec fn wf(self) -> bool {
        wf_emails(self.emails()) && wf_facts(self.facts())
    }

    /// An empty store.
    pub fn new() -> (r: RelationalStore)
        ensures
            r.wf(),
            r.emails() == Seq::<Email>::empty(),
            r.facts() == Seq::<EmailFact>::empty(),
            r.config() == Seq::<(String, String)>::empty(),
    {
        RelationalStore { emails: Vec::new(), facts: Vec::new(), config: Vec::new() }
    }

    /// How many message rows the store holds.
    pub fn email_count(&self) -> (r: usize)
        ensures
            r == self.emails().len(),
    {
        self.emails.len()
    }

    /// How many fact rows the store holds.
    pub fn fact_count(&self) -> (r: usize)
        ensures
            r == self.facts().len(),
    {
        self.facts.len()
    }

    /// The message row at an index.
    pub fn email_at(&self, i: usize) -> (r: &Email)
        requires
            i < self.emails().len(),
        ensures
            *r == self.emails()[i as int],
    {
        &self.emails[i]
    }

    /// The fact row at an index.
    pub fn fact_at(&self, i: usize) -> (r: &EmailFact)
        requires
            i < self.facts().len(),
        ensures
            *r == self.facts()[i as int],
    {
        &self.facts[i]
    }

    /// Finds the row number of a message key.
    fn find_email(&self, store_id: &str, entry_id: &str) -> (r: Option<usize>)
        ensures
            match r {
                Some(i) => i == spec_email_index(self.emails(), store_id@, entry_id@) && i
                    < self.emails().len(),
                None => spec_email_index(self.emails(), store_id@, entry_id@) == -1,
            },
    {
        let n = self.emails.len();
        let ghost emails = self.emails@;
        assert(emails.skip(0) =~= emails);
        for i in 0..n
            invariant
                n == emails.len(),
                self.emails@ == emails,
                spec_email_index(emails, store_id@, entry_id@) == if spec_email_index(
                    emails.skip(i as int),
                    store_id@,
                    entry_id@,
                ) == -1 {
                    -1
                } else {
                    spec_email_index(emails.skip(i as int), store_id@, entry_id@) + i
                },
        {
            proof {
                assert(emails.skip(i as int).first() == emails[i as int]);
                assert(emails.skip(i as int).drop_first() =~= emails.skip(i as int + 1));
                lemma_email_index_facts(emails.skip(i as int + 1), store_id@, entry_id@);
            }
            let row = &self.emails[i];
            if str_eq(row.store_id.as_str(), store_id) && str_eq(row.entry_id.as_str(), entry_id) {
                return Some(i);
            }
        }
        proof {
            assert(emails.skip(n as int) =~= Seq::<Email>::empty());
        }
        None
    }

    /// Upserts a message on its unique key `(store_id, entry_id)` and
    /// returns the durable relational id: an insert assigns the next id;
    /// a conflict updates the mutable fields — folder, subject, received
    /// and last-indexed times, body, hash — and returns the existing id.
    pub fn save_email(&mut self, email: Email) -> (id: i64)
        requires
            old(self).wf(),
            old(self).emails().len() + 1 < MAX_ROWS,
        ensures
            final(self).wf(),
            final(self).emails() == spec_upsert_email(old(self).emails(), email),
            final(self).facts() == old(self).facts(),
            final(self).config() == old(self).config(),
            id == final(self).emails()[spec_email_index(
                final(self).emails(),
                email.store_id@,
                email.entry_id@,
            )].id,
            spec_email_index(final(self).emails(), email.store_id@, email.entry_id@) >= 0,
    {
        proof {
            lemma_upsert_email_facts(self.emails@, email);
            lemma_email_index_facts(self.emails@, email.store_id@, email.entry_id@);
        }
        match self.find_email(email.store_id.as_str(), email.entry_id.as_str()) {
            Some(i) => {
                let ghost sid = email.store_id@;
                let ghost eid = email.entry_id@;
                let row = vstd::std_specs::vec::vec_index_mut(&mut self.emails, i);
                let id = row.id;
                row.folder = email.folder;
                row.subject = email.subject;
                row.received_at = email.received_at;
                row.body_text = email.body_text;
                row.last_indexed_at = email.last_indexed_at;
                row.hash = email.hash;
                proof {
                    assert(self.emails@ =~= spec_upsert_email(old(self).emails(), email));
                    lemma_email_index_facts(self.emails@, sid, eid);
                    let w = spec_email_index(self.emails@, sid, eid);
                    assert(email_has_key(self.emails@[w], sid, eid));
                    assert(email_has_key(self.emails@[i as int], sid, eid));
                    assert(w == i);
                }
                id
            },
            None => {
                let ghost sid = email.store_id@;
                let ghost eid = email.entry_id@;
                let id = (self.emails.len() + 1) as i64;
                let mut email = email;
                email.id = id;
                self.emails.push(email);
                proof {
                    assert(self.emails@ =~= spec_upsert_email(old(self).emails(), email));
                    lemma_email_index_facts(self.emails@, sid, eid);
                    let w = spec_email_index(self.emails@, sid, eid);
                    assert(email_has_key(self.emails@[w], sid, eid));
                    assert(email_has_key(self.emails@[old(self).emails().len() as int], sid, eid));
                    assert(w == old(self).emails().len());
                }
                id
            },
        }
    }

    /// Finds the row number of a fact's parent id.
    fn find_fact(&self, email_id: i64) -> (r: Option<usize>)
        ensures
            match r {
                Some(i) => i == spec_fact_index(self.facts(), email_id) && i
                    < self.facts().len(),
                None => spec_fact_index(self.facts(), email_id) == -1,
            },
    {
        let n = self.facts.len();
        let ghost rows = self.facts@;
        assert(rows.skip(0) =~= rows);
        for i in 0..n
            invariant
                n == rows.len(),
                self.facts@ == rows,
                spec_fact_index(rows, email_id) == if spec_fact_index(
                    rows.skip(i as int),
                    email_id,
                ) == -1 {
                    -1
                } else {
                    spec_fact_index(rows.skip(i as int), email_id) + i
                },
        {
            proof {
                assert(rows.skip(i as int).first() == rows[i as int]);
                assert(rows.skip(i as int).drop_first() =~= rows.skip(i as int + 1));
                lemma_fact_index_facts(rows.skip(i as int + 1), email_id);
            }
            if self.facts[i].email_id == email_id {
                return Some(i);
            }
        }
        proof {
            assert(rows.skip(n as int) =~= Seq::<EmailFact>::empty());
        }
        None
    }

    /// Upserts facts on the parent id: an insert keeps the fact whole; a
    /// conflict replaces everything but the original creation time.
    pub fn save_facts(&mut self, facts: EmailFact)
        requires
            old(self).wf(),
        ensures
            final(self).wf(),
            final(self).facts() == spec_upsert_fact(old(self).facts(), facts),
            final(self).emails() == old(self).emails(),
            final(self).config() == old(self).config(),
            spec_fact_index(final(self).facts(), facts.email_id) >= 0,
    {
        proof {
            lemma_upsert_fact_facts(self.facts@, facts);
        }
        match self.find_fact(facts.email_id) {
            Some(i) => {
                let created_at = self.facts[i].created_at;
                let mut replacement = facts;
                replacement.created_at = created_at;
                self.facts.set(i, replacement);
                proof {
                    assert(self.facts@ =~= spec_upsert_fact(old(self).facts(), facts));
                }
            },
            None => {
                self.facts.push(facts);
            },
        }
    }

    /// Index of a configuration key, `-1` when it is not set.
    pub open spec fn spec_config_index(config: Seq<(String, String)>, key: Seq<char>) -> int
        decreases config.len(),
    {
        if config.len() == 0 {
            -1
        } else if config.first().0@ == key {
            0
        } else {
            let r = Self::spec_config_index(config.drop_first(), key);
            if r == -1 {
                -1
            } else {
                r + 1
            }
        }
    }

    /// Finds the row number of a configuration key.
    fn find_config(&self, key: &str) -> (r: Option<usize>)
        ensures
            match r {
                Some(i) => i == Self::spec_config_index(self.config(), key@) && i
                    < self.config().len(),
                None => Self::spec_config_index(self.config(), key@) == -1,
            },
    {
        let n = self.config.len();
        let ghost rows = self.config@;
        assert(rows.skip(0) =~= rows);
        for i in 0..n
            invariant
                n == rows.len(),
                self.config@ == rows,
                Self::spec_config_index(rows, key@) == if Self::spec_config_index(
                    rows.skip(i as int),
                    key@,
                ) == -1 {
                    -1
                } else {
                    Self::spec_config_index(rows.skip(i as int), key@) + i
                },
        {
            proof {
                assert(rows.skip(i as int).first() == rows[i as int]);
                assert(rows.skip(i as int).drop_first() =~= rows.skip(i as int + 1));
                lemma_config_index_bounds(rows.skip(i as int + 1), key@);
            }
            if str_eq(self.config[i].0.as_str(), key) {
                return Some(i);
            }
        }
        proof {
            assert(rows.skip(n as int) =~= Seq::<(String, String)>::empty());
        }
        None
    }

    /// Sets a configuration value, replacing any previous one.
    pub fn set_config(&mut self, key: &str, value: &str)
        ensures
            final(self).emails() == old(self).emails(),
            final(self).facts() == old(self).facts(),
            ({
                let i = Self::spec_config_index(old(self).config(), key@);
                let before = old(self).config();
                let after = final(self).config();
                if i == -1 {
                    &&& after.len() == before.len() + 1
                    &&& after.last().0@ == key@
                    &&& after.last().1@ == value@
                    &&& after.take(before.len() as int) == before
                } else {
                    &&& after.len() == before.len()
                    &&& after[i].0@ == key@
                    &&& after[i].1@ == value@
                    &&& forall|j: int| 0 <= j < before.len() && j != i ==> after[j] == before[j]
                }
            }),
    {
        match self.find_config(key) {
            Some(i) => {
                self.config.set(i, (String::from_str(key), String::from_str(value)));
            },
            None => {
                self.config.push((String::from_str(key), String::from_str(value)));
                proof {
                    assert(self.config@.take(old(self).config().len() as int) =~= old(
                        self,
                    ).config());
                }
            },
        }
    }

    /// Reads a configuration value.
    pub fn get_config(&self, key: &str) -> (r: Option<String>)
        ensures
            match r {
                Some(v) => {
                    let i = Self::spec_config_index(self.config(), key@);
                    i >= 0 && v@ == self.config()[i].1@
                },
                None => Self::spec_config_index(self.config(), key@) == -1,
            },
    {
        proof {
            lemma_config_index_bounds(self.config@, key@);
        }
        match self.find_config(key) {
            Some(i) => Some(self.config[i].1.clone()),
            None => None,
        }
    }
}

/// The metadata stored beside a vector, used for filtering.
#[derive(Debug, Clone)]
pub struct VectorPayload {
    pub subject: String,
}

/// One vector record: the embedding and its payload.
#[derive(Debug, Clone)]
pub struct VectorRecord {
    pub vector: Embedding,
    pub payload: VectorPayload,
}

/// Index of a point id, `-1` when there is none.
pub open spec fn spec_point_index(points: Seq<(u64, VectorRecord)>, id: u64) -> int
    decreases points.len(),
{
    if points.len() == 0 {
        -1
    } else if points.first().0 == id {
        0
    } else {
        let r = spec_point_index(points.drop_first(), id);
        if r == -1 {
            -1
        } else {
            r + 1
        }
    }
}

pub proof fn lemma_point_index_facts(points: Seq<(u64, VectorRecord)>, id: u64)
    ensures
        -1 <= spec_point_index(points, id) < points.len(),
        spec_point_index(points, id) >= 0 ==> points[spec_point_index(points, id)].0 == id,
        spec_point_index(points, id) == -1 ==> forall|i: int|
            0 <= i < points.len() ==> (#[trigger] points[i]).0 != id,
    decreases points.len(),
{
    if points.len() > 0 && points.first().0 != id {
        lemma_point_index_facts(points.drop_first(), id);
        if spec_point_index(points, id) == -1 {
            assert forall|i: int|
                0 <= i < points.len() implies (#[trigger] points[i]).0 != id by {
                if i > 0 {
                    assert(points[i] == points.drop_first()[i - 1]);
                }
            }
        }
    }
}

pub proof fn lemma_point_present(points: Seq<(u64, VectorRecord)>, id: u64, w: int)
    requires
        0 <= w < points.len(),
        points[w].0 == id,
    ensures
        spec_point_index(points, id) >= 0,
    decreases points.len(),
{
    if points.first().0 != id {
        lemma_point_present(points.drop_first(), id, w - 1);
    }
}

/// What one vector upsert leaves: the record at the id overwritten, or
/// appended when the id is new.
pub open spec fn spec_upsert_point(points: Seq<(u64, VectorRecord)>, id: u64, rec: VectorRecord) -> Seq<
    (u64, VectorRecord),
> {
    let i = spec_point_index(points, id);
    if i == -1 {
        points.push((id, rec))
    } else {
        points.update(i, (id, rec))
    }
}

/// Well-formed points: unique ids.
pub open spec fn wf_points(points: Seq<(u64, VectorRecord)>) -> bool {
    forall|i: int, j: int|
        0 <= i < points.len() && 0 <= j < points.len() && (#[trigger] points[i]).0 == (
        #[trigger] points[j]).0 ==> i == j
}

pub proof fn lemma_upsert_point_facts(points: Seq<(u64, VectorRecord)>, id: u64, rec: VectorRecord)
    requires
        wf_points(points),
    ensures
        wf_points(spec_upsert_point(points, id, rec)),
        spec_point_index(spec_upsert_point(points, id, rec), id) >= 0,
        spec_upsert_point(points, id, rec)[spec_point_index(
            spec_upsert_point(points, id, rec),
            id,
        )] == (id, rec),
        spec_upsert_point(points, id, rec).len() == if spec_point_index(points, id) == -1 {
            points.len() + 1
        } else {
            points.len() as nat
        },
{
    let i = spec_point_index(points, id);
    lemma_point_index_facts(points, id);
    let out = spec_upsert_point(points, id, rec);
    if i == -1 {
        lemma_point_present(out, id, points.len() as int);
        lemma_point_index_facts(out, id);
    } else {
        lemma_point_present(out, id, i);
        lemma_point_index_facts(out, id);
    }
}

/// The vector index: records keyed by the stable 64-bit message identity.
pub struct VectorStore {
    points: Vec<(u64, VectorRecord)>,
}

impl VectorStore {
    pub closed spec fn points(self) -> Seq<(u64, VectorRecord)> {
        self.points@
    }

    /// Unique point ids.
    pub open spec fn wf(self) -> bool {
        wf_points(self.points())
    }

    /// An empty index.
    pub fn new() -> (r: VectorStore)
        ensures
            r.wf(),
            r.points() == Seq::<(u64, VectorRecord)>::empty(),
    {
        VectorStore { points: Vec::new() }
    }

    /// How many records the index holds.
    pub fn point_count(&self) -> (r: usize)
        ensures
            r == self.points().len(),
    {
        self.points.len()
    }

    /// The record at an index.
    pub fn point_at(&self, i: usize) -> (r: &(u64, VectorRecord))
        requires
            i < self.points().len(),
        ensures
            *r == self.points()[i as int],
    {
        &self.points[i]
    }

    /// Finds the row number of a point id.
    fn find_point(&self, id: u64) -> (r: Option<usize>)
        ensures
            match r {
                Some(i) => i == spec_point_index(self.points(), id) && i
                    < self.points().len(),
                None => spec_point_index(self.points(), id) == -1,
            },
    {
        let n = self.points.len();
        let ghost rows = self.points@;
        assert(rows.skip(0) =~= rows);
        for i in 0..n
            invariant
                n == rows.len(),
                self.points@ == rows,
                spec_point_index(rows, id) == if spec_point_index(rows.skip(i as int), id) == -1 {
                    -1
                } else {
                    spec_point_index(rows.skip(i as int), id) + i
                },
        {
            proof {
                assert(rows.skip(i as int).first() == rows[i as int]);
                assert(rows.skip(i as int).drop_first() =~= rows.skip(i as int + 1));
                lemma_point_index_facts(rows.skip(i as int + 1), id);
            }
            if self.points[i].0 == id {
                return Some(i);
            }
        }
        proof {
            assert(rows.skip(n as int) =~= Seq::<(u64, VectorRecord)>::empty());
        }
        None
    }

    /// Upserts a message's vector record at its stable identity, derived
    /// from `(store_id, entry_id)` — never from the relational id — so
    /// reprocessing overwrites rather than duplicates.
    pub fn upsert_email_vector(
        &mut self,
        store_id: &str,
        entry_id: &str,
        vector: Embedding,
        payload: VectorPayload,
    ) -> (id: u64)
        requires
            old(self).wf(),
        ensures
            final(self).wf(),
            id == stable_vector_id_of(store_id.spec_bytes(), entry_id.spec_bytes()),
            final(self).points() == spec_upsert_point(
                old(self).points(),
                id,
                VectorRecord { vector, payload },
            ),
            spec_point_index(final(self).points(), id) >= 0,
            final(self).points().len() == if spec_point_index(old(self).points(), id) == -1 {
                old(self).points().len() + 1
            } else {
                old(self).points().len() as nat
            },
    {
        let id = stable_vector_id(store_id, entry_id);
        let rec = VectorRecord { vector, payload };
        proof {
            lemma_upsert_point_facts(self.points@, id, rec);
        }
        match self.find_point(id) {
            Some(i) => {
                self.points.set(i, (id, rec));
                proof {
                    assert(self.points@ =~= spec_upsert_point(
                        old(self).points(),
                        id,
                        VectorRecord { vector, payload },
                    ));
                }
            },
            None => {
                self.points.push((id, rec));
            },
        }
        id
    }
}

/// Law: processing a message key twice leaves exactly one relational row
/// for it. The second upsert of the same `(store_id, entry_id)` adds no
/// row; the key is present; well-formedness makes it unique.
pub proof fn lemma_email_upsert_idempotent(emails: Seq<Email>, e1: Email, e2: Email)
    requires
        wf_emails(emails),
        emails.len() + 2 < MAX_ROWS,
        e1.store_id@ == e2.store_id@,
        e1.entry_id@ == e2.entry_id@,
    ensures
        ({
            let once = spec_upsert_email(emails, e1);
            let twice = spec_upsert_email(once, e2);
            &&& twice.len() == once.len()
            &&& spec_email_index(twice, e2.store_id@, e2.entry_id@) >= 0
            &&& forall|i: int, j: int|
                0 <= i < twice.len() && 0 <= j < twice.len() && email_has_key(
                    #[trigger] twice[i],
                    e2.store_id@,
                    e2.entry_id@,
                ) && email_has_key(#[trigger] twice[j], e2.store_id@, e2.entry_id@) ==> i == j
        }),
{
    lemma_upsert_email_facts(emails, e1);
    let once = spec_upsert_email(emails, e1);
    lemma_upsert_email_facts(once, e2);
    lemma_email_index_facts(once, e2.store_id@, e2.entry_id@);
}

/// Law: overwriting a vector id twice leaves exactly one record for it.
pub proof fn lemma_point_upsert_idempotent(
    points: Seq<(u64, VectorRecord)>,
    id: u64,
    r1: VectorRecord,
    r2: VectorRecord,
)
    requires
        wf_points(points),
    ensures
        ({
            let once = spec_upsert_point(points, id, r1);
            let twice = spec_upsert_point(once, id, r2);
            &&& twice.len() == once.len()
            &&& spec_point_index(twice, id) >= 0
            &&& forall|i: int, j: int|
                0 <= i < twice.len() && 0 <= j < twice.len() && (#[trigger] twice[i]).0 == id && (
                #[trigger] twice[j]).0 == id ==> i == j
        }),
{
    lemma_upsert_point_facts(points, id, r1);
    let once = spec_upsert_point(points, id, r1);
    lemma_upsert_point_facts(once, id, r2);
    lemma_point_index_facts(once, id);
}

} // verus!
