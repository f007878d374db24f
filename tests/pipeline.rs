use taxi_ingest::calendar::Date;
use taxi_ingest::preflight::{count_query, date_range_from, range_query, verification_result};
use taxi_ingest::schema::{TableKind, TypedRecord};
use taxi_ingest::stats::{ingest_file, prepare_file, CounterOverflow, FileStep, RunStatistics};
use taxi_ingest::transform::UploadBatch;
use taxi_ingest::upload::{upload_actions, SinkAction};

fn trip_row(distance: &str) -> Vec<String> {
    ["2", "2023-03-15 10:00:00", "2023-03-15 10:20:00", "1", distance, "12.0", "15.5"]
        .iter()
        .map(|c| c.to_string())
        .collect()
}

/// A file of `n` rows, of which `bad` have a negative distance.
fn file_rows(n: usize, bad: usize) -> Vec<Vec<String>> {
    (0..n).map(|i| trip_row(if i < bad { "-1.5" } else { "3.2" })).collect()
}

/// Performs the upload operations of a batch against an in-memory table.
fn upload(sink: &mut Vec<TypedRecord>, batch: &UploadBatch) -> usize {
    let mut opened = 0;
    let mut pending = Vec::new();
    for action in upload_actions(batch) {
        match action {
            SinkAction::Open => opened += 1,
            SinkAction::Write(i) => pending.push(batch.records[i]),
            SinkAction::Commit => sink.append(&mut pending),
        }
    }
    opened
}

/// Runs the ingestion of `files` (`None` for a file that does not decode).
fn run(sink: &mut Vec<TypedRecord>, files: &[Option<Vec<Vec<String>>>]) -> RunStatistics {
    let mut stats = RunStatistics::new();
    for file in files {
        match ingest_file(&mut stats, file.as_ref(), 1024, TableKind::Yellow) {
            Ok(FileStep::Skipped) => {}
            Ok(FileStep::Upload(batch)) => {
                upload(sink, &batch);
                stats.record_uploaded(batch.len());
            }
            Err(CounterOverflow) => panic!("counters overflowed"),
        }
    }
    stats
}

#[test]
fn one_file_with_filtered_rows() {
    let mut sink = Vec::new();
    let stats = run(&mut sink, &[Some(file_rows(100, 5))]);
    assert_eq!(stats.files_processed, 1);
    assert_eq!(stats.files_failed, 0);
    assert_eq!(stats.rows_processed, 100);
    assert_eq!(stats.rows_filtered, 5);
    assert_eq!(stats.rows_uploaded, 95);
    assert_eq!(stats.bytes_processed, 1024);
    assert_eq!(sink.len(), 95);
}

#[test]
fn corrupt_file_does_not_abort() {
    let mut sink = Vec::new();
    let stats = run(&mut sink, &[None, Some(file_rows(10, 0))]);
    assert_eq!(stats.files_failed, 1);
    assert_eq!(stats.files_processed, 1);
    assert_eq!(stats.rows_uploaded, 10);
    assert_eq!(stats.rows_processed, 10);
    assert_eq!(stats.bytes_processed, 1024);
    assert_eq!(sink.len(), 10);
}

#[test]
fn rows_balance_per_file() {
    let mut sink = Vec::new();
    let stats = run(&mut sink, &[Some(file_rows(7, 3)), Some(file_rows(4, 4))]);
    assert_eq!(stats.rows_processed, stats.rows_uploaded + stats.rows_filtered);
    assert_eq!(stats.rows_uploaded, 4);
    assert_eq!(stats.files_processed, 2);
}

#[test]
fn rerun_appends_duplicates() {
    let mut sink = Vec::new();
    let files = [Some(file_rows(20, 2))];
    run(&mut sink, &files);
    assert_eq!(sink.len(), 18);
    let again = run(&mut sink, &files);
    assert_eq!(again.rows_uploaded, 18);
    assert_eq!(sink.len(), 36);
    assert_eq!(sink[..18], sink[18..]);
}

#[test]
fn empty_batch_opens_no_append() {
    let mut stats = RunStatistics::new();
    let batch = prepare_file(&mut stats, &file_rows(3, 3), 10, TableKind::Yellow);
    assert!(batch.is_empty());
    assert!(upload_actions(&batch).is_empty());
    let mut sink = Vec::new();
    assert_eq!(upload(&mut sink, &batch), 0);
    assert_eq!(stats.rows_filtered, 3);
}

#[test]
fn batch_upload_plan() {
    let mut stats = RunStatistics::new();
    let batch = prepare_file(&mut stats, &file_rows(2, 0), 10, TableKind::Yellow);
    assert_eq!(
        upload_actions(&batch),
        vec![SinkAction::Open, SinkAction::Write(0), SinkAction::Write(1), SinkAction::Commit]
    );
}

#[test]
fn counters_refuse_overflow() {
    let mut stats = RunStatistics::new();
    stats.rows_processed = u64::MAX - 1;
    assert!(stats.can_take(1, 0));
    assert!(!stats.can_take(2, 0));
    stats.files_failed = u32::MAX;
    assert!(!stats.can_take(0, 0));
}

#[test]
fn empty_table_verification() {
    let r = verification_result(Some(0), Some(("1970-01-01".to_string(), "1970-01-01".to_string())));
    assert_eq!(r.existing_row_count, 0);
    assert_eq!(r.date_range, None);
    let r = verification_result(None, None);
    assert_eq!(r.existing_row_count, 0);
    assert_eq!(r.date_range, None);
}

#[test]
fn two_row_table_verification() {
    let r = verification_result(Some(2), Some(("2023-01-01".to_string(), "2023-03-15".to_string())));
    assert_eq!(r.existing_row_count, 2);
    assert_eq!(
        r.date_range,
        Some((Date { year: 2023, month: 1, day: 1 }, Date { year: 2023, month: 3, day: 15 }))
    );
}

#[test]
fn unreadable_bounds_give_no_range() {
    let r = verification_result(Some(5), Some(("2023-02-30".to_string(), "2023-03-15".to_string())));
    assert_eq!(r.existing_row_count, 5);
    assert_eq!(r.date_range, None);
    let r = verification_result(Some(5), None);
    assert_eq!(r.date_range, None);
}

#[test]
fn range_from_read_bounds() {
    let d = Date { year: 2020, month: 6, day: 1 };
    assert_eq!(date_range_from(3, Some((Some(d), Some(d)))), Some((d, d)));
    assert_eq!(date_range_from(0, Some((Some(d), Some(d)))), None);
    assert_eq!(date_range_from(3, Some((None, Some(d)))), None);
}

#[test]
fn query_texts() {
    assert_eq!(count_query(TableKind::Yellow), "SELECT COUNT(*) FROM yellow_taxi_trips");
    assert_eq!(
        range_query(TableKind::Green),
        "SELECT MIN(pickup_date), MAX(pickup_date) FROM green_taxi_trips"
    );
}

#[test]
fn overflowing_counters_leave_stats_unchanged() {
    let mut stats = RunStatistics::new();
    stats.files_failed = u32::MAX;
    let before = stats;
    assert!(matches!(ingest_file(&mut stats, None, 0, TableKind::Green), Err(CounterOverflow)));
    assert_eq!(stats, before);
    stats.rows_uploaded = u64::MAX;
    let before = stats;
    let rows = file_rows(1, 0);
    assert!(matches!(ingest_file(&mut stats, Some(&rows), 0, TableKind::Yellow), Err(CounterOverflow)));
    assert_eq!(stats, before);
}
