//! Run statistics, updated at the checkpoints of each file.
use crate::schema::TableKind;
use crate::transform::{accepted, lemma_accepted_len, transform_and_filter, TransformOutput, UploadBatch};
use vstd::prelude::*;

verus! {

/// Counters of one run. The start time and the derived throughput are kept
/// by the caller, who owns the clock.
#[derive(Clone, Copy, Debug, PartialEq, Eq)]
pub struct RunStatistics {
    pub files_processed: u32,
    pub files_failed: u32,
    pub rows_processed: u64,
    pub rows_uploaded: u64,
    pub rows_filtered: u64,
    pub bytes_processed: u64,
}

/// The counters after a file was decoded into `rows` rows of `bytes` bytes
/// and `filtered` of those rows were refused.
pub open spec fn after_transform(s: RunStatistics, rows: nat, filtered: nat, bytes: nat) -> RunStatistics {
    RunStatistics {
        rows_processed: (s.rows_processed + rows) as u64,
        rows_filtered: (s.rows_filtered + filtered) as u64,
        bytes_processed: (s.bytes_processed + bytes) as u64,
        ..s
    }
}

/// The counters after a file's batch of `uploaded` records was written.
pub open spec fn after_upload(s: RunStatistics, uploaded: nat) -> RunStatistics {
    RunStatistics {
        rows_uploaded: (s.rows_uploaded + uploaded) as u64,
        files_processed: (s.files_processed + 1) as u32,
        ..s
    }
}

/// The counters after a file could not be decoded.
pub open spec fn after_failure(s: RunStatistics) -> RunStatistics {
    RunStatistics { files_failed: (s.files_failed + 1) as u32, ..s }
}

impl RunStatistics {
    /// All counters at zero.
    pub fn new() -> (r: RunStatistics)
        ensures
            r.files_processed == 0,
            r.files_failed == 0,
            r.rows_processed == 0,
            r.rows_uploaded == 0,
            r.rows_filtered == 0,
            r.bytes_processed == 0,
    {
        RunStatistics {
            files_processed: 0,
            files_failed: 0,
            rows_processed: 0,
            rows_uploaded: 0,
            rows_filtered: 0,
            bytes_processed: 0,
        }
    }

    /// The counters leave room for one more file of `rows` rows and `bytes` bytes.
    pub open spec fn has_room(&self, rows: nat, bytes: nat) -> bool {
        &&& self.rows_processed + rows <= u64::MAX
        &&& self.rows_filtered + rows <= u64::MAX
        &&& self.rows_uploaded + rows <= u64::MAX
        &&& self.bytes_processed + bytes <= u64::MAX
        &&& self.files_processed < u32::MAX
        &&& self.files_failed < u32::MAX
    }

    /// The counters leave room to record an upload of `rows` rows.
    pub open spec fn has_upload_room(&self, rows: nat) -> bool {
        &&& self.rows_uploaded + rows <= u64::MAX
        &&& self.files_processed < u32::MAX
    }

    /// Tells whether the counters leave room for one more file of `rows` rows
    /// and `bytes` bytes.
    pub fn can_take(&self, rows: usize, bytes: u64) -> (r: bool)
        ensures
            r == self.has_room(rows as nat, bytes as nat),
    {
        let rows = rows as u64;
        rows <= u64::MAX - self.rows_processed && rows <= u64::MAX - self.rows_filtered && rows
            <= u64::MAX - self.rows_uploaded && bytes <= u64::MAX - self.bytes_processed
            && self.files_processed < u32::MAX && self.files_failed < u32::MAX
    }

    /// Counts a file that could not be opened or decoded.
    pub fn record_failed_file(&mut self)
        requires
            old(self).files_failed < u32::MAX,
        ensures
            *final(self) == after_failure(*old(self)),
    {
        self.files_failed = self.files_failed + 1;
    }

    /// Counts the rows and bytes of a decoded file and the rows its
    /// conversion refused.
    pub fn record_transformed(&mut self, rows: usize, filtered: u64, bytes: u64)
        requires
            filtered <= rows,
            old(self).has_room(rows as nat, bytes as nat),
        ensures
            *final(self) == after_transform(*old(self), rows as nat, filtered as nat, bytes as nat),
            final(self).has_upload_room(rows as nat),
    {
        self.rows_processed = self.rows_processed + rows as u64;
        self.rows_filtered = self.rows_filtered + filtered;
        self.bytes_processed = self.bytes_processed + bytes;
    }

    /// Counts a file whose batch of `uploaded` records was written.
    pub fn record_uploaded(&mut self, uploaded: usize)
        requires
            old(self).has_upload_room(uploaded as nat),
        ensures
            *final(self) == after_upload(*old(self), uploaded as nat),
    {
        self.rows_uploaded = self.rows_uploaded + uploaded as u64;
        self.files_processed = self.files_processed + 1;
    }
}

/// The decode step of a file succeeded: converts its rows and counts them.
/// The returned batch is what is to be uploaded for the file.
pub fn prepare_file(stats: &mut RunStatistics, rows: &Vec<Vec<String>>, bytes: u64, kind: TableKind) -> (r: UploadBatch)
    requires
        old(stats).has_room(rows@.len(), bytes as nat),
    ensures
        r.kind == kind,
        r.wf(),
        r.records@ == accepted(rows@, kind),
        *final(stats) == after_transform(
            *old(stats),
            rows@.len(),
            (rows@.len() - r.records@.len()) as nat,
            bytes as nat,
        ),
        final(stats).has_upload_room(r.records@.len()),
{
    let out: TransformOutput = transform_and_filter(rows, kind);
    stats.record_transformed(rows.len(), out.rows_filtered, bytes);
    out.batch
}

/// Raised where counting a file would overflow a run counter; the counters
/// are then left as they were.
#[derive(Clone, Copy, Debug, PartialEq, Eq)]
pub struct CounterOverflow;

/// What is left to do for a file once its decode step has run.
pub enum FileStep {
    /// The file could not be opened or decoded; it was counted as failed and
    /// the run goes on with the next file.
    Skipped,
    /// The file decoded; this batch is to be uploaded, then counted with
    /// `record_uploaded`.
    Upload(UploadBatch),
}

/// Counts one file whose decode step gave `decoded` (`None` where it failed)
/// from `bytes` bytes, and returns what is left to do for it.
pub fn ingest_file(
    stats: &mut RunStatistics,
    decoded: Option<&Vec<Vec<String>>>,
    bytes: u64,
    kind: TableKind,
) -> (r: Result<FileStep, CounterOverflow>)
    ensures
        match decoded {
            None => if old(stats).files_failed < u32::MAX {
                r matches Ok(FileStep::Skipped) && *final(stats) == after_failure(*old(stats))
            } else {
                r is Err && *final(stats) == *old(stats)
            },
            Some(rows) => if old(stats).has_room(rows@.len(), bytes as nat) {
                &&& r matches Ok(FileStep::Upload(b))
                &&& r->Ok_0->Upload_0.kind == kind
                &&& r->Ok_0->Upload_0.wf()
                &&& r->Ok_0->Upload_0.records@ == accepted(rows@, kind)
                &&& *final(stats) == after_transform(
                    *old(stats),
                    rows@.len(),
                    (rows@.len() - accepted(rows@, kind).len()) as nat,
                    bytes as nat,
                )
                &&& final(stats).has_upload_room(accepted(rows@, kind).len())
            } else {
                r is Err && *final(stats) == *old(stats)
            },
        },
{
    match decoded {
        None => {
            if stats.files_failed == u32::MAX {
                return Err(CounterOverflow);
            }
            stats.record_failed_file();
            Ok(FileStep::Skipped)
        },
        Some(rows) => {
            if !stats.can_take(rows.len(), bytes) {
                return Err(CounterOverflow);
            }
            Ok(FileStep::Upload(prepare_file(stats, rows, bytes, kind)))
        },
    }
}

/// Within one decoded file, every row is either uploaded or filtered: the
/// rows the file adds to `rows_processed` are the rows it adds to
/// `rows_uploaded` plus those it adds to `rows_filtered`.
pub proof fn lemma_file_rows_balance(
    before: RunStatistics,
    rows: Seq<Vec<String>>,
    kind: TableKind,
    bytes: nat,
)
    requires
        before.has_room(rows.len(), bytes),
    ensures
        ({
            let uploaded = accepted(rows, kind).len();
            let mid = after_transform(before, rows.len(), (rows.len() - uploaded) as nat, bytes);
            let after = after_upload(mid, uploaded);
            after.rows_processed - before.rows_processed == (after.rows_uploaded
                - before.rows_uploaded) + (after.rows_filtered - before.rows_filtered)
        }),
{
    lemma_accepted_len(rows, kind);
}

} // verus!
