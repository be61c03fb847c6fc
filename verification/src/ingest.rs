//! Per-log ingestion and the backfill runner.
//!
//! Every observed log, historical or live, goes through the same
//! decode-then-persist step: a decode failure drops the single log and
//! never persists anything; a decoded record is handed to the sink,
//! which inserts it or absorbs a duplicate. The backfill runner applies
//! that step to every log of one bounded historical batch, in the order
//! the node returned them, continuing past individual decode failures.
use crate::decode::decode_user_operation_event;
use crate::decode::spec_decode_error;
use crate::decode::spec_decode_event;
use crate::decode::spec_decodes;
use crate::decode::DecodeError;
use crate::decode::RawLog;
use crate::store::row_of;
use crate::store::spec_persist;
use crate::store::EventStore;
use crate::store::PersistOutcome;
use crate::store::RowView;
use vstd::prelude::*;

verus! {

/// What became of one observed log.
#[derive(Clone, Copy, Debug, PartialEq, Eq, Structural)]
pub enum StepOutcome {
    /// Decoded and handed to the sink, which inserted it or absorbed
    /// it as a duplicate.
    Persisted(PersistOutcome),
    /// Rejected by the decoder and dropped permanently; nothing was
    /// persisted for it.
    SkippedDecode(DecodeError),
}

/// The decode-then-persist step on one log.
pub open spec fn spec_process_log(rows: Seq<RowView>, log: RawLog) -> (Seq<RowView>, StepOutcome) {
    if spec_decodes(log) {
        let (rows2, o) = spec_persist(
            rows,
            row_of(spec_decode_event(log), log.block_number.unwrap()),
        );
        (rows2, StepOutcome::Persisted(o))
    } else {
        (rows, StepOutcome::SkippedDecode(spec_decode_error(log)))
    }
}

/// The backfill runner on a batch: each log is attempted in order, and
/// the store grows by exactly the decoded, not-yet-seen records.
pub open spec fn spec_run_batch(rows: Seq<RowView>, logs: Seq<RawLog>) -> (
    Seq<RowView>,
    Seq<StepOutcome>,
)
    decreases logs.len(),
{
    if logs.len() == 0 {
        (rows, Seq::<StepOutcome>::empty())
    } else {
        let (rows1, outs) = spec_run_batch(rows, logs.drop_last());
        let (rows2, o) = spec_process_log(rows1, logs.last());
        (rows2, outs.push(o))
    }
}

/// Decode one log and persist the record, or drop the log on a decode
/// failure without touching the store.
pub fn process_log(store: &mut EventStore, log: &RawLog) -> (o: StepOutcome)
    requires
        log.topics_wf(),
    ensures
        (final(store)@, o) == spec_process_log(old(store)@, *log),
        !spec_decodes(*log) ==> final(store)@ == old(store)@ && o == StepOutcome::SkippedDecode(
            spec_decode_error(*log),
        ),
{
    match decode_user_operation_event(log) {
        Ok((ev, block_number)) => StepOutcome::Persisted(store.persist_event(&ev, block_number)),
        Err(e) => StepOutcome::SkippedDecode(e),
    }
}

/// Run the backfill over one historical batch: attempt every log, in
/// the order given, skipping individual decode failures. The returned
/// outcomes report, one per log, what became of each.
pub fn run_backfill(store: &mut EventStore, logs: &Vec<RawLog>) -> (outcomes: Vec<StepOutcome>)
    requires
        forall|i: int| 0 <= i < logs@.len() ==> (#[trigger] logs@[i]).topics_wf(),
    ensures
        (final(store)@, outcomes@) == spec_run_batch(old(store)@, logs@),
        outcomes@.len() == logs@.len(),
{
    let ghost rows0 = store@;
    let mut outcomes: Vec<StepOutcome> = Vec::new();
    let mut i: usize = 0;
    while i < logs.len()
        invariant
            i <= logs@.len(),
            forall|k: int| 0 <= k < logs@.len() ==> (#[trigger] logs@[k]).topics_wf(),
            (store@, outcomes@) == spec_run_batch(rows0, logs@.take(i as int)),
            outcomes@.len() == i,
        decreases logs@.len() - i,
    {
        let o = process_log(store, &logs[i]);
        outcomes.push(o);
        proof {
            let t1 = logs@.take(i + 1 as int);
            assert(t1.drop_last() =~= logs@.take(i as int));
            assert(t1.last() == logs@[i as int]);
        }
        i += 1;
    }
    proof {
        assert(logs@.take(logs@.len() as int) =~= logs@);
    }
    outcomes
}

/// A malformed log is rejected before anything is persisted: the step
/// on a log the decoder refuses leaves the store exactly as it was.
pub proof fn lemma_malformed_never_persists(rows: Seq<RowView>, log: RawLog)
    requires
        !spec_decodes(log),
    ensures
        spec_process_log(rows, log).0 == rows,
        spec_process_log(rows, log).1 == StepOutcome::SkippedDecode(spec_decode_error(log)),
{
}

/// The backfill attempts every log of the batch: one outcome is
/// reported per log, whatever mix of successes, duplicates and decode
/// failures the batch holds.
pub proof fn lemma_backfill_attempts_every_log(rows: Seq<RowView>, logs: Seq<RawLog>)
    ensures
        spec_run_batch(rows, logs).1.len() == logs.len(),
    decreases logs.len(),
{
    if logs.len() == 0 {
    } else {
        lemma_backfill_attempts_every_log(rows, logs.drop_last());
    }
}

} // verus!
