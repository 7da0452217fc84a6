//! Per-message orchestration, strictly ordered:
//! fingerprint, persist the message, extract facts, persist the facts,
//! embed, upsert the vector record.
//!
//! The message is persisted before anything can fail, so a crash or a bad
//! model answer never loses the fact that it was seen; a failure after
//! that point surfaces to the scheduler but rolls nothing back. Facts and
//! the vector record are written only on full success of their steps.

use vstd::prelude::*;
use vstd::utf8::encode_utf8;
use crate::errors::NoodleError;
use crate::extractor::{extract_facts, fact_from_validated, fact_matches};
use crate::ident::{content_fingerprint, fingerprint_of, stable_vector_id_of};
use crate::provider::AiProvider;
use crate::schema::spec_validate;
use crate::store::{
    spec_email_index, spec_fact_index, spec_point_index, RelationalStore, VectorPayload,
    VectorStore, MAX_ROWS,
};
use crate::types::Email;

verus! {

/// Whether a message's key has a row in the store.
pub open spec fn msg_present(emails: Seq<Email>, e: Email) -> bool {
    spec_email_index(emails, e.store_id@, e.entry_id@) >= 0
}

/// Drives one message through the six pipeline steps.
pub struct ExtractionPipeline {
    pub schema: crate::schema::ExtractionPipeline,
}

impl ExtractionPipeline {
    pub fn new() -> (r: ExtractionPipeline) {
        ExtractionPipeline { schema: crate::schema::ExtractionPipeline::new() }
    }

    /// Processes one message. Whatever happens, the message itself is
    /// upserted first, with its content fingerprint, under its unique key
    /// — failures of extraction or embedding skip the rest but never the
    /// record of the message. On success the durable id is returned, its
    /// facts are upserted under that id, and the vector record is
    /// overwritten at the stable identity.
    #[verifier::rlimit(60)]
    pub fn process_email<P: AiProvider>(
        &self,
        sqlite: &mut RelationalStore,
        qdrant: &mut VectorStore,
        ai: &P,
        email: Email,
        now: i64,
        prompt_id: u128,
    ) -> (r: Result<i64, NoodleError>)
        requires
            old(sqlite).wf(),
            old(qdrant).wf(),
            old(sqlite).emails().len() + 1 < MAX_ROWS,
        ensures
            final(sqlite).wf(),
            final(qdrant).wf(),
            // The message is recorded, whatever else happened.
            msg_present(final(sqlite).emails(), email),
            final(sqlite).emails().len() == if msg_present(old(sqlite).emails(), email) {
                old(sqlite).emails().len() as nat
            } else {
                old(sqlite).emails().len() + 1
            },
            // Rows already recorded stay recorded.
            forall|sid: Seq<char>, eid: Seq<char>|
                #[trigger] spec_email_index(old(sqlite).emails(), sid, eid) >= 0
                    ==> spec_email_index(final(sqlite).emails(), sid, eid) >= 0,
            // The stored row carries the message's content and fingerprint.
            ({
                let w = spec_email_index(final(sqlite).emails(), email.store_id@, email.entry_id@);
                let row = final(sqlite).emails()[w];
                &&& row.hash@ == fingerprint_of(
                    encode_utf8(email.subject@),
                    encode_utf8(email.sender@),
                    encode_utf8(email.body_text@),
                )
                &&& row.subject == email.subject
                &&& row.body_text == email.body_text
                &&& row.folder == email.folder
                &&& row.received_at == email.received_at
                &&& row.last_indexed_at == email.last_indexed_at
            }),
            final(sqlite).config() == old(sqlite).config(),
            // Success: the returned id is the row's id, the facts are
            // there under it and are the documented mapping of a
            // validated answer, and the vector record sits at the stable
            // identity with the message's subject as payload.
            match r {
                Ok(id) => {
                    let w = spec_email_index(
                        final(sqlite).emails(),
                        email.store_id@,
                        email.entry_id@,
                    );
                    let fi = spec_fact_index(final(sqlite).facts(), id);
                    let pi = spec_point_index(
                        final(qdrant).points(),
                        stable_vector_id_of(
                            encode_utf8(email.store_id@),
                            encode_utf8(email.entry_id@),
                        ),
                    );
                    &&& id == final(sqlite).emails()[w].id
                    &&& fi >= 0
                    &&& final(sqlite).facts()[fi].wf()
                    &&& fact_from_validated(final(sqlite).facts()[fi])
                    &&& pi >= 0
                    &&& final(qdrant).points()[pi].1.payload.subject@ == email.subject@
                },
                Err(e) => {
                    &&& (e is AI || e == NoodleError::SchemaRepairFailed)
                    &&& final(qdrant).points() == old(qdrant).points()
                },
            },
    {
        // Step 1: content fingerprint.
        let hash = content_fingerprint(
            email.subject.as_str(),
            email.sender.as_str(),
            email.body_text.as_str(),
        );
        let subject = email.subject.clone();
        let sender = email.sender.clone();
        let body_text = email.body_text.clone();
        let store_id = email.store_id.clone();
        let entry_id = email.entry_id.clone();
        let mut email = email;
        email.hash = hash;
        let ghost stored = email;
        proof {
            crate::store::lemma_upsert_email_facts(old(sqlite).emails(), stored);
        }
        // Step 2: persist the message; from here on it is recorded.
        let id = sqlite.save_email(email);
        proof {
            let pre = old(sqlite).emails();
            let post = sqlite.emails();
            let sid = stored.store_id@;
            let eid = stored.entry_id@;
            crate::store::lemma_email_index_facts(pre, sid, eid);
            crate::store::lemma_email_index_facts(post, sid, eid);
            let i0 = spec_email_index(pre, sid, eid);
            let w = spec_email_index(post, sid, eid);
            assert(crate::store::email_has_key(post[w], sid, eid));
            if i0 == -1 {
                assert(post == pre.push(Email { id: (pre.len() + 1) as i64, ..stored }));
                assert(crate::store::email_has_key(post[pre.len() as int], sid, eid));
                assert(w == pre.len());
            } else {
                assert(post == pre.update(i0, crate::store::spec_merge_email(pre[i0], stored)));
                assert(crate::store::email_has_key(post[i0], sid, eid));
                assert(w == i0);
            }
        }
        // Step 3: extract facts from the message text.
        let snapshot = Email {
            id,
            store_id,
            entry_id,
            conversation_id: None,
            folder: String::new(),
            subject,
            sender,
            to: String::new(),
            cc: None,
            bcc: None,
            sent_at: 0,
            received_at: 0,
            body_text,
            body_html: None,
            importance: 0,
            categories: None,
            flags: None,
            internet_message_id: None,
            last_indexed_at: 0,
            hash: String::new(),
            excluded_reason: None,
        };
        let mut facts = match extract_facts(&self.schema, ai, &snapshot, now, prompt_id) {
            Ok(f) => f,
            Err(e) => {
                return Err(e);
            },
        };
        let ghost f0 = facts;
        facts.email_id = id;
        let ghost f1 = facts;
        proof {
            let v = choose|v: crate::json::JsonValue| spec_validate(v) && #[trigger] fact_matches(
                v,
                f0,
            );
            assert(fact_matches(v, f1));
            assert(fact_from_validated(f1));
            assert(f1.wf());
        }
        // Step 4: persist the facts under the durable id.
        sqlite.save_facts(facts);
        proof {
            let fpre = old(sqlite).facts();
            let fpost = sqlite.facts();
            crate::store::lemma_fact_index_facts(fpost, id);
            crate::store::lemma_fact_index_facts(fpre, id);
            let j = crate::store::spec_fact_index(fpre, id);
            let fi = crate::store::spec_fact_index(fpost, id);
            assert(fpost[fi].email_id == id);
            if j == -1 {
                assert(fpost == fpre.push(f1));
                assert(fpost[fpre.len() as int].email_id == id);
                assert(fi == fpre.len());
                assert(fpost[fi] == f1);
            } else {
                assert(fpost == fpre.update(
                    j,
                    crate::types::EmailFact { created_at: fpre[j].created_at, ..f1 },
                ));
                assert(fpost[j].email_id == id);
                assert(fi == j);
            }
            let v = choose|v: crate::json::JsonValue| spec_validate(v) && #[trigger] fact_matches(
                v,
                f1,
            );
            assert(fact_matches(v, fpost[fi]));
            assert(fact_from_validated(fpost[fi]));
            assert(fpost[fi].wf());
        }
        // Step 5: embed the message body.
        let embedding = match ai.generate_embedding(snapshot.body_text.as_str()) {
            Ok(e) => e,
            Err(e) => {
                return Err(crate::schema::as_ai_error(e));
            },
        };
        // Step 6: overwrite the vector record at the stable identity.
        let payload = VectorPayload { subject: snapshot.subject.clone() };
        let ghost gpayload = payload;
        let ghost gembed = embedding;
        let ghost prepoints = qdrant.points();
        let vid = qdrant.upsert_email_vector(
            snapshot.store_id.as_str(),
            snapshot.entry_id.as_str(),
            embedding,
            payload,
        );
        proof {
            crate::store::lemma_upsert_point_facts(
                prepoints,
                vid,
                crate::store::VectorRecord { vector: gembed, payload: gpayload },
            );
            let w = spec_email_index(sqlite.emails(), stored.store_id@, stored.entry_id@);
            let fi = spec_fact_index(sqlite.facts(), id);
            let pid2 = stable_vector_id_of(
                encode_utf8(stored.store_id@),
                encode_utf8(stored.entry_id@),
            );
            let pi = spec_point_index(qdrant.points(), pid2);
            assert(id == sqlite.emails()[w].id);
            assert(fi >= 0);
            assert(sqlite.facts()[fi].wf());
            assert(fact_from_validated(sqlite.facts()[fi]));
            assert(vid == pid2);
            assert(pi >= 0);
            assert(qdrant.points()[pi].1.payload.subject@ == stored.subject@);
        }
        Ok(id)
    }
}

} // verus!
