//! Turning the rows of one decoded file into the batch that is uploaded.
use crate::schema::{record_of, to_taxi_trip, TableKind, TypedRecord};
use vstd::prelude::*;

verus! {

/// The record belongs to the table's shape.
pub open spec fn belongs_to(r: TypedRecord, kind: TableKind) -> bool {
    match r {
        TypedRecord::Yellow(_) => kind == TableKind::Yellow,
        TypedRecord::Green(_) => kind == TableKind::Green,
    }
}

/// The records of one file, all of one table, in the order of their rows.
pub struct UploadBatch {
    pub kind: TableKind,
    pub records: Vec<TypedRecord>,
}

impl UploadBatch {
    pub open spec fn wf(&self) -> bool {
        forall|i: int| 0 <= i < self.records@.len() ==> belongs_to(#[trigger] self.records@[i], self.kind)
    }

    pub fn len(&self) -> (r: usize)
        ensures
            r == self.records@.len(),
    {
        self.records.len()
    }

    pub fn is_empty(&self) -> (r: bool)
        ensures
            r == (self.records@.len() == 0),
    {
        self.records.len() == 0
    }
}

/// The records that the accepted rows become, in row order.
pub open spec fn accepted(rows: Seq<Vec<String>>, kind: TableKind) -> Seq<TypedRecord>
    decreases rows.len(),
{
    if rows.len() == 0 {
        seq![]
    } else {
        let prev = accepted(rows.drop_last(), kind);
        match record_of(rows.last()@, kind) {
            Ok(r) => prev.push(r),
            Err(_) => prev,
        }
    }
}

proof fn lemma_accepted_belong(rows: Seq<Vec<String>>, kind: TableKind)
    ensures
        accepted(rows, kind).len() <= rows.len(),
        forall|i: int|
            0 <= i < accepted(rows, kind).len() ==> belongs_to(
                #[trigger] accepted(rows, kind)[i],
                kind,
            ),
    decreases rows.len(),
{
    if rows.len() > 0 {
        lemma_accepted_belong(rows.drop_last(), kind);
    }
}

pub proof fn lemma_accepted_len(rows: Seq<Vec<String>>, kind: TableKind)
    ensures
        accepted(rows, kind).len() <= rows.len(),
{
    lemma_accepted_belong(rows, kind);
}

/// What came of the rows of one file.
pub struct TransformOutput {
    pub batch: UploadBatch,
    pub rows_filtered: u64,
}

/// Applies the table's conversion rule to every row. The batch holds the
/// records of the accepted rows, in order; every other row is counted as
/// filtered.
pub fn transform_and_filter(rows: &Vec<Vec<String>>, kind: TableKind) -> (r: TransformOutput)
    ensures
        r.batch.kind == kind,
        r.batch.records@ == accepted(rows@, kind),
        r.batch.wf(),
        r.rows_filtered + r.batch.records@.len() == rows@.len(),
{
    let mut records: Vec<TypedRecord> = Vec::new();
    let mut filtered: u64 = 0;
    let mut i: usize = 0;
    while i < rows.len()
        invariant
            i <= rows@.len(),
            records@ == accepted(rows@.take(i as int), kind),
            filtered + records@.len() == i,
        decreases rows@.len() - i,
    {
        assert(rows@.take(i + 1).drop_last() =~= rows@.take(i as int));
        match to_taxi_trip(&rows[i], kind) {
            Ok(rec) => records.push(rec),
            Err(_) => filtered = filtered + 1,
        }
        i = i + 1;
    }
    assert(rows@.take(rows@.len() as int) =~= rows@);
    proof {
        lemma_accepted_belong(rows@, kind);
    }
    TransformOutput { batch: UploadBatch { kind, records }, rows_filtered: filtered }
}

} // verus!
