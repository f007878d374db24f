//! The sink operations that upload one file's batch, and what they leave in
//! the sink.
use crate::schema::{TableKind, TypedRecord};
use crate::transform::{accepted, lemma_accepted_len, UploadBatch};
use vstd::prelude::*;

verus! {

/// One operation against the sink's streaming append.
#[derive(Clone, Copy, Debug, PartialEq, Eq)]
pub enum SinkAction {
    /// Open an append on the target table.
    Open,
    /// Write the batch's record at this position.
    Write(usize),
    /// Finalize the append.
    Commit,
}

/// The writes of records `0..n`, in order.
pub open spec fn writes(n: nat) -> Seq<SinkAction> {
    Seq::new(n, |i: int| SinkAction::Write(i as usize))
}

/// The operations that upload a batch of `n` records: nothing for an empty
/// batch, else one append that writes every record in order and is then
/// finalized.
pub open spec fn upload_plan(n: nat) -> Seq<SinkAction> {
    if n == 0 {
        seq![]
    } else {
        seq![SinkAction::Open] + writes(n) + seq![SinkAction::Commit]
    }
}

/// The rows a sink holds once `plan` has been performed on it, in order, for
/// the batch `records`. A write is visible as soon as it is made: a finalize
/// that fails after some writes may leave part of the batch in the sink.
pub open spec fn perform(sink: Seq<TypedRecord>, records: Seq<TypedRecord>, plan: Seq<SinkAction>) -> Seq<TypedRecord>
    decreases plan.len(),
{
    if plan.len() == 0 {
        sink
    } else {
        let prev = perform(sink, records, plan.drop_last());
        match plan.last() {
            SinkAction::Write(i) => if i < records.len() {
                prev.push(records[i as int])
            } else {
                prev
            },
            _ => prev,
        }
    }
}

/// The operations that upload `batch`, for the caller to perform in order.
/// An empty batch gives no operation at all, so no append is opened.
pub fn upload_actions(batch: &UploadBatch) -> (r: Vec<SinkAction>)
    ensures
        r@ == upload_plan(batch.records@.len()),
        r@.len() == 0 <==> batch.records@.len() == 0,
{
    let n = batch.records.len();
    let mut plan: Vec<SinkAction> = Vec::new();
    if n == 0 {
        return plan;
    }
    plan.push(SinkAction::Open);
    let mut i: usize = 0;
    while i < n
        invariant
            n == batch.records@.len(),
            i <= n,
            plan@ == seq![SinkAction::Open] + writes(i as nat),
        decreases n - i,
    {
        plan.push(SinkAction::Write(i));
        assert(writes((i + 1) as nat) =~= writes(i as nat).push(SinkAction::Write(i)));
        i = i + 1;
    }
    plan.push(SinkAction::Commit);
    plan
}

proof fn lemma_writes_append(sink: Seq<TypedRecord>, records: Seq<TypedRecord>, k: nat)
    requires
        k <= records.len() <= usize::MAX,
    ensures
        perform(sink, records, seq![SinkAction::Open] + writes(k)) == sink + records.take(k as int),
    decreases k,
{
    let plan = seq![SinkAction::Open] + writes(k);
    if k == 0 {
        assert(plan.drop_last() =~= Seq::<SinkAction>::empty());
        assert(perform(sink, records, plan.drop_last()) == sink);
        assert(sink + records.take(0) =~= sink);
    } else {
        lemma_writes_append(sink, records, (k - 1) as nat);
        assert(plan.drop_last() =~= seq![SinkAction::Open] + writes((k - 1) as nat));
        assert(plan.last() == SinkAction::Write((k - 1) as usize));
        assert(perform(sink, records, plan.drop_last()) == sink + records.take(k - 1));
        assert(sink + records.take(k as int) =~= (sink + records.take(k - 1)).push(records[k - 1]));
    }
}

/// Uploading a batch leaves the sink holding what it held before, followed
/// by every record of the batch in order.
pub proof fn lemma_upload_appends(sink: Seq<TypedRecord>, records: Seq<TypedRecord>)
    requires
        records.len() <= usize::MAX,
    ensures
        perform(sink, records, upload_plan(records.len())) == sink + records,
{
    let n = records.len();
    if n == 0 {
        assert(sink + records =~= sink);
    } else {
        let plan = upload_plan(n);
        assert(plan.drop_last() =~= seq![SinkAction::Open] + writes(n));
        lemma_writes_append(sink, records, n);
        assert(records.take(n as int) =~= records);
    }
}

/// Ingestion is not idempotent: uploading the same rows a second time into a
/// table appends their records again, so the sink holds each of them twice.
pub proof fn lemma_rerun_duplicates(sink: Seq<TypedRecord>, rows: Seq<Vec<String>>, kind: TableKind)
    requires
        rows.len() <= usize::MAX,
    ensures
        ({
            let batch = accepted(rows, kind);
            let once = perform(sink, batch, upload_plan(batch.len()));
            let twice = perform(once, accepted(rows, kind), upload_plan(batch.len()));
            &&& twice == sink + batch + batch
            &&& twice.len() == sink.len() + 2 * batch.len()
            &&& forall|i: int|
                0 <= i < batch.len() ==> #[trigger] twice[sink.len() + i] == twice[sink.len()
                    + batch.len() + i]
        }),
{
    let batch = accepted(rows, kind);
    lemma_accepted_len(rows, kind);
    lemma_upload_appends(sink, batch);
    lemma_upload_appends(sink + batch, batch);
}

} // verus!
