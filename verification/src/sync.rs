//! The scheduler: an initial wide-window scan, then unbounded periodic
//! narrow-window delta scans, across the configured folders.
//!
//! A scan never stops early: a folder whose fetch failed is skipped and
//! the scan continues with the next folder; a message whose processing
//! failed is skipped and the scan continues with the next message. The
//! application performs the fetches and the wall-clock waits; the
//! decisions — windows, intervals, phase, and the scan itself over the
//! fetched batches — live here.

use vstd::prelude::*;
use vstd::utf8::encode_utf8;
use crate::errors::NoodleError;
use crate::numbers::{parse_i64, spec_parse_i64};
use crate::pipeline::{msg_present, ExtractionPipeline};
use crate::provider::AiProvider;
use crate::store::{spec_email_index, RelationalStore, VectorStore, MAX_ROWS};
use crate::types::Email;

verus! {

/// One configured source folder: the source's numeric identifier and a
/// display name.
#[derive(Debug, Clone)]
pub struct Folder {
    pub id: i32,
    pub name: String,
}

/// The two phases of the scheduler; there is no terminal phase.
#[derive(Debug, Clone, Copy, PartialEq, Eq, Structural)]
pub enum ScanPhase {
    InitialScan,
    SteadyState,
}

/// The scheduler's knobs: the wide historical window of the initial
/// scan, the narrow window of every delta scan, and the tick interval.
#[derive(Debug, Clone)]
pub struct SyncConfig {
    pub history_days: i64,
    pub delta_days: i64,
    pub interval_minutes: i64,
}

/// A configuration value read as a whole number, with a default.
pub open spec fn spec_config_i64(v: Option<String>, default: i64) -> i64 {
    match v {
        Some(s) => match spec_parse_i64(encode_utf8(s@)) {
            Some(x) => x,
            None => default,
        },
        None => default,
    }
}

/// Reads the scheduler's knobs out of the configuration strings: the
/// historical window defaults to 90 days, the interval to 2 minutes, the
/// delta window is one day.
pub fn sync_settings_from_config(history: Option<String>, interval: Option<String>) -> (r:
    SyncConfig)
    ensures
        r.history_days == spec_config_i64(history, 90),
        r.interval_minutes == spec_config_i64(interval, 2),
        r.delta_days == 1,
{
    let history_days: i64 = match history {
        Some(s) => match parse_i64(s.as_str()) {
            Some(x) => x,
            None => 90,
        },
        None => 90,
    };
    let interval_minutes: i64 = match interval {
        Some(s) => match parse_i64(s.as_str()) {
            Some(x) => x,
            None => 2,
        },
        None => 2,
    };
    SyncConfig { history_days, delta_days: 1, interval_minutes }
}

/// The folders every scan covers: the inbox and the sent-items folder,
/// by their conventional source identifiers.
pub fn default_folders() -> (r: Vec<Folder>)
    ensures
        r@.len() == 2,
        r@[0].id == 6,
        r@[0].name@ == "Inbox"@,
        r@[1].id == 5,
        r@[1].name@ == "Sent Items"@,
{
    let mut r: Vec<Folder> = Vec::new();
    r.push(Folder { id: 6, name: String::from_str("Inbox") });
    r.push(Folder { id: 5, name: String::from_str("Sent Items") });
    r
}

/// Messages a fetch outcome contributes to a scan.
pub open spec fn folder_count(fr: Result<Vec<Email>, NoodleError>) -> nat {
    match fr {
        Ok(v) => v@.len(),
        Err(_) => 0,
    }
}

/// Messages the fetch outcomes from position `f` on contribute.
pub open spec fn totals_from(fetches: Seq<Result<Vec<Email>, NoodleError>>, f: int) -> nat
    decreases fetches.len() - f when 0 <= f <= fetches.len()
{
    if f >= fetches.len() {
        0
    } else {
        folder_count(fetches[f]) + totals_from(fetches, f + 1)
    }
}

/// Every message of a successful fetch has a row in the store.
pub open spec fn folder_recorded(fr: Result<Vec<Email>, NoodleError>, emails: Seq<Email>) -> bool {
    match fr {
        Ok(v) => forall|m: int| 0 <= m < v@.len() ==> msg_present(emails, #[trigger] v@[m]),
        Err(_) => true,
    }
}

/// Every message of every successful fetch before `upto` has a row.
pub open spec fn folders_recorded(
    fetches: Seq<Result<Vec<Email>, NoodleError>>,
    upto: int,
    emails: Seq<Email>,
) -> bool {
    forall|f: int| 0 <= f < upto ==> folder_recorded(#[trigger] fetches[f], emails)
}

/// The first `upto` messages of one batch have rows.
pub open spec fn prefix_recorded(msgs: Seq<Email>, upto: int, emails: Seq<Email>) -> bool {
    forall|m: int| 0 <= m < upto ==> msg_present(emails, #[trigger] msgs[m])
}

/// Rows stay recorded when every recorded key stays recorded.
proof fn lemma_recorded_mono(
    fetches: Seq<Result<Vec<Email>, NoodleError>>,
    upto: int,
    pre: Seq<Email>,
    post: Seq<Email>,
)
    requires
        folders_recorded(fetches, upto, pre),
        forall|sid: Seq<char>, eid: Seq<char>|
            #[trigger] spec_email_index(pre, sid, eid) >= 0 ==> spec_email_index(post, sid, eid)
                >= 0,
    ensures
        folders_recorded(fetches, upto, post),
{
    assert forall|f: int| 0 <= f < upto implies folder_recorded(
        #[trigger] fetches[f],
        post,
    ) by {
        match fetches[f] {
            Ok(v) => {
                assert forall|m: int| 0 <= m < v@.len() implies msg_present(
                    post,
                    #[trigger] v@[m],
                ) by {
                    assert(msg_present(pre, v@[m]));
                }
            },
            Err(_) => {},
        }
    }
}

proof fn lemma_prefix_mono(msgs: Seq<Email>, upto: int, pre: Seq<Email>, post: Seq<Email>)
    requires
        prefix_recorded(msgs, upto, pre),
        forall|sid: Seq<char>, eid: Seq<char>|
            #[trigger] spec_email_index(pre, sid, eid) >= 0 ==> spec_email_index(post, sid, eid)
                >= 0,
    ensures
        prefix_recorded(msgs, upto, post),
{
    assert forall|m: int| 0 <= m < upto implies msg_present(post, #[trigger] msgs[m]) by {
        assert(msg_present(pre, msgs[m]));
    }
}

/// What one scan did.
#[derive(Debug, Clone, Copy, PartialEq, Eq, Structural)]
pub struct ScanReport {
    pub folders_succeeded: usize,
    pub folders_failed: usize,
    pub messages_processed: usize,
    pub messages_skipped: usize,
}

/// The top-level scheduler.
pub struct SyncManager {
    pub config: SyncConfig,
    pub phase: ScanPhase,
    pub pipeline: ExtractionPipeline,
}

impl SyncManager {
    /// A scheduler at the start of its life: the initial scan is still
    /// ahead of it.
    pub fn new(config: SyncConfig) -> (r: SyncManager)
        ensures
            r.phase == ScanPhase::InitialScan,
            r.config == config,
    {
        SyncManager { config, phase: ScanPhase::InitialScan, pipeline: ExtractionPipeline::new() }
    }

    /// The fetch window of the next scan: the wide historical window
    /// while the initial scan is ahead, the narrow delta window after.
    pub fn scan_window_days(&self) -> (r: i64)
        ensures
            r == if self.phase == ScanPhase::InitialScan {
                self.config.history_days
            } else {
                self.config.delta_days
            },
    {
        match self.phase {
            ScanPhase::InitialScan => self.config.history_days,
            ScanPhase::SteadyState => self.config.delta_days,
        }
    }

    /// Enters steady state, once the initial scan has run.
    pub fn complete_initial_scan(&mut self)
        ensures
            final(self).phase == ScanPhase::SteadyState,
            final(self).config == old(self).config,
    {
        self.phase = ScanPhase::SteadyState;
    }

    /// Seconds between delta scans: the configured minutes, or the
    /// two-minute default when the setting is out of its sensible range
    /// of one minute to one day.
    pub fn tick_interval_secs(&self) -> (r: u64)
        ensures
            r == if 1 <= self.config.interval_minutes <= 1440 {
                (self.config.interval_minutes * 60) as u64
            } else {
                120u64
            },
    {
        let m = self.config.interval_minutes;
        if 1 <= m && m <= 1440 {
            (m * 60) as u64
        } else {
            120
        }
    }

    /// Runs one scan over the fetched batches, one per folder, in order.
    /// A failed fetch skips only its folder; a failed message skips only
    /// that message; afterwards every message of every successful fetch
    /// has a row in the relational store. Each message's request
    /// identifier is `prompt_seed` plus its running number.
    pub fn run_scan<P: AiProvider>(
        &self,
        sqlite: &mut RelationalStore,
        qdrant: &mut VectorStore,
        ai: &P,
        fetches: Vec<Result<Vec<Email>, NoodleError>>,
        now: i64,
        prompt_seed: u128,
    ) -> (r: ScanReport)
        requires
            old(sqlite).wf(),
            old(qdrant).wf(),
            old(sqlite).emails().len() + totals_from(fetches@, 0) + 1 < MAX_ROWS,
            prompt_seed + totals_from(fetches@, 0) < u128::MAX,
        ensures
            final(sqlite).wf(),
            final(qdrant).wf(),
            folders_recorded(fetches@, fetches@.len() as int, final(sqlite).emails()),
            r.folders_succeeded + r.folders_failed == fetches@.len(),
            r.messages_processed + r.messages_skipped == totals_from(fetches@, 0),
    {
        let ghost all = fetches@;
        let total_folders = fetches.len();
        proof {
            assert(all.len() == total_folders);
        }
        let mut fetches = fetches;
        let mut f: usize = 0;
        let mut folders_succeeded: usize = 0;
        let mut folders_failed: usize = 0;
        let mut messages_processed: usize = 0;
        let mut messages_skipped: usize = 0;
        proof {
            assert(all.skip(0) =~= all);
        }
        while fetches.len() > 0
            invariant
                sqlite.wf(),
                qdrant.wf(),
                f <= all.len(),
                fetches@ == all.skip(f as int),
                folders_recorded(all, f as int, sqlite.emails()),
                folders_succeeded + folders_failed == f,
                messages_processed + messages_skipped + totals_from(all, f as int) == totals_from(
                    all,
                    0,
                ),
                sqlite.emails().len() + totals_from(all, f as int) + 1 < MAX_ROWS,
                prompt_seed + totals_from(all, 0) < u128::MAX,
                totals_from(all, 0) < MAX_ROWS,
                all.len() == total_folders,
            decreases fetches@.len(),
        {
            proof {
                assert(all.skip(f as int).first() == all[f as int]);
                assert(all.skip(f as int).drop_first() =~= all.skip(f as int + 1));
                assert(totals_from(all, f as int) == folder_count(all[f as int]) + totals_from(
                    all,
                    f as int + 1,
                ));
            }
            let entry = fetches.remove(0);
            let ghost gentry = entry;
            match entry {
                Err(_) => {
                    folders_failed = folders_failed + 1;
                },
                Ok(mut msgs) => {
                    let ghost fmsgs = msgs@;
                    let mut m: usize = 0;
                    proof {
                        assert(fmsgs.skip(0) =~= fmsgs);
                    }
                    while msgs.len() > 0
                        invariant
                            sqlite.wf(),
                            qdrant.wf(),
                            m <= fmsgs.len(),
                            msgs@ == fmsgs.skip(m as int),
                            0 <= f < all.len(),
                            gentry == all[f as int],
                            gentry matches Ok(v0) && v0@ == fmsgs,
                            folders_recorded(all, f as int, sqlite.emails()),
                            prefix_recorded(fmsgs, m as int, sqlite.emails()),
                            messages_processed + messages_skipped + (fmsgs.len() - m)
                                + totals_from(all, f as int + 1) == totals_from(all, 0),
                            sqlite.emails().len() + (fmsgs.len() - m) + totals_from(
                                all,
                                f as int + 1,
                            ) + 1 < MAX_ROWS,
                            prompt_seed + totals_from(all, 0) < u128::MAX,
                            totals_from(all, 0) < MAX_ROWS,
                            fmsgs.len() < MAX_ROWS,
                            all.len() == total_folders,
                        decreases msgs@.len(),
                    {
                        proof {
                            assert(fmsgs.skip(m as int).first() == fmsgs[m as int]);
                            assert(fmsgs.skip(m as int).drop_first() =~= fmsgs.skip(
                                m as int + 1,
                            ));
                        }
                        let email = msgs.remove(0);
                        let ghost gemail = email;
                        let pid = prompt_seed + ((messages_processed + messages_skipped) as u128);
                        let ghost pre_emails = sqlite.emails();
                        let outcome = self.pipeline.process_email(
                            sqlite,
                            qdrant,
                            ai,
                            email,
                            now,
                            pid,
                        );
                        match outcome {
                            Ok(_) => {
                                messages_processed = messages_processed + 1;
                            },
                            Err(_) => {
                                messages_skipped = messages_skipped + 1;
                            },
                        }
                        proof {
                            lemma_recorded_mono(all, f as int, pre_emails, sqlite.emails());
                            lemma_prefix_mono(fmsgs, m as int, pre_emails, sqlite.emails());
                            assert(msg_present(sqlite.emails(), gemail));
                            assert(gemail == fmsgs[m as int]);
                            assert(prefix_recorded(fmsgs, m as int + 1, sqlite.emails()));
                        }
                        m = m + 1;
                    }
                    proof {
                        assert(fmsgs.skip(m as int) =~= Seq::<Email>::empty());
                        assert(m == fmsgs.len());
                        assert(folder_recorded(all[f as int], sqlite.emails()));
                    }
                    folders_succeeded = folders_succeeded + 1;
                },
            }
            proof {
                assert(folder_recorded(all[f as int], sqlite.emails()));
                assert forall|f2: int| 0 <= f2 < f as int + 1 implies folder_recorded(
                    #[trigger] all[f2],
                    sqlite.emails(),
                ) by {}
            }
            f = f + 1;
        }
        proof {
            assert(all.skip(f as int) =~= Seq::<Result<Vec<Email>, NoodleError>>::empty());
            assert(f == all.len());
            assert(totals_from(all, f as int) == 0);
        }
        ScanReport { folders_succeeded, folders_failed, messages_processed, messages_skipped }
    }
}

} // verus!
