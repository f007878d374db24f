use taxi_ingest::calendar::{Date, DateTime};
use taxi_ingest::cells::{parse_amount, parse_count, parse_whole};
use taxi_ingest::discover::has_columnar_extension;
use taxi_ingest::schema::{
    record_with_stamps, to_taxi_trip, Reason, RecordValidationError, TableKind, TripType,
    TypedRecord, UnknownTableError,
};
use taxi_ingest::transform::transform_and_filter;

fn row(cells: &[&str]) -> Vec<String> {
    cells.iter().map(|c| c.to_string()).collect()
}

fn yellow_row(distance: &str) -> Vec<String> {
    row(&["1", "2023-01-01 00:32:10", "2023-01-01 00:40:36", "1.0", distance, "9.3", "14.3"])
}

#[test]
fn count_cells() {
    assert_eq!(parse_count("42"), Some(42));
    assert_eq!(parse_count("0007"), Some(7));
    assert_eq!(parse_count("4294967295"), Some(u32::MAX));
    assert_eq!(parse_count("4294967296"), None);
    assert_eq!(parse_count(""), None);
    assert_eq!(parse_count("4a"), None);
    assert_eq!(parse_count("-1"), None);
}

#[test]
fn amount_cells() {
    assert_eq!(parse_amount("12.5"), Some(1250));
    assert_eq!(parse_amount("-3.25"), Some(-325));
    assert_eq!(parse_amount("1.999"), Some(199));
    assert_eq!(parse_amount("7"), Some(700));
    assert_eq!(parse_amount("0.0"), Some(0));
    assert_eq!(parse_amount("1."), None);
    assert_eq!(parse_amount(".5"), None);
    assert_eq!(parse_amount("-"), None);
    assert_eq!(parse_amount("abc"), None);
    assert_eq!(parse_amount("1.2.3"), None);
    assert_eq!(parse_amount("1000000000000000.99"), Some(100_000_000_000_000_099));
    assert_eq!(parse_amount("1000000000000001"), None);
}

#[test]
fn whole_cells() {
    assert_eq!(parse_whole("2.0"), Some(2));
    assert_eq!(parse_whole("2"), Some(2));
    assert_eq!(parse_whole("2.5"), None);
    assert_eq!(parse_whole("-1.0"), None);
    assert_eq!(parse_whole("null"), None);
}

#[test]
fn known_tables_resolve() {
    assert_eq!(TableKind::from_table_name("yellow_taxi_trips"), Ok(TableKind::Yellow));
    assert_eq!(TableKind::from_table_name("green_taxi_trips"), Ok(TableKind::Green));
    assert_eq!(TableKind::Yellow.table_name(), "yellow_taxi_trips");
    assert_eq!(TableKind::Green.date_column(), "pickup_date");
}

#[test]
fn unknown_table_is_refused() {
    assert_eq!(
        TableKind::from_table_name("fhv_trips"),
        Err(UnknownTableError { table: "fhv_trips".to_string() })
    );
    assert_eq!(
        TableKind::from_table_name(""),
        Err(UnknownTableError { table: String::new() })
    );
    assert!(TableKind::from_table_name("yellow_taxi_trips ").is_err());
}

#[test]
fn yellow_row_converts() {
    let r = to_taxi_trip(&yellow_row("2.5"), TableKind::Yellow).unwrap();
    match r {
        TypedRecord::Yellow(y) => {
            assert_eq!(y.trip.vendor_id, 1);
            assert_eq!(y.trip.passenger_count, 1);
            assert_eq!(y.trip.trip_distance, 250);
            assert_eq!(y.trip.fare_amount, 930);
            assert_eq!(y.trip.total_amount, 1430);
            assert_eq!(y.trip.pickup.date, Date { year: 2023, month: 1, day: 1 });
            assert_eq!(
                y.trip.dropoff,
                DateTime {
                    date: Date { year: 2023, month: 1, day: 1 },
                    hour: 0,
                    minute: 40,
                    second: 36
                }
            );
        }
        TypedRecord::Green(_) => panic!("expected a yellow record"),
    }
}

#[test]
fn fractional_seconds_are_accepted() {
    let mut cells = yellow_row("1.0");
    cells[1] = "2023-01-01 00:32:10.000".to_string();
    assert!(to_taxi_trip(&cells, TableKind::Yellow).is_ok());
}

#[test]
fn negative_distance_is_refused() {
    assert_eq!(
        to_taxi_trip(&yellow_row("-0.5"), TableKind::Yellow),
        Err(RecordValidationError { column: 4, reason: Reason::OutOfRange })
    );
}

#[test]
fn malformed_cells_are_refused() {
    let mut cells = yellow_row("1.0");
    cells[1] = "not a time".to_string();
    assert_eq!(
        to_taxi_trip(&cells, TableKind::Yellow),
        Err(RecordValidationError { column: 1, reason: Reason::Malformed })
    );
    let mut cells = yellow_row("1.0");
    cells[0] = "x".to_string();
    assert_eq!(
        to_taxi_trip(&cells, TableKind::Yellow),
        Err(RecordValidationError { column: 0, reason: Reason::Malformed })
    );
    let mut cells = yellow_row("1.0");
    cells[6] = "".to_string();
    assert_eq!(
        to_taxi_trip(&cells, TableKind::Yellow),
        Err(RecordValidationError { column: 6, reason: Reason::Malformed })
    );
}

#[test]
fn dropoff_before_pickup_is_refused() {
    let mut cells = yellow_row("1.0");
    cells[2] = "2022-12-31 23:59:59".to_string();
    assert_eq!(
        to_taxi_trip(&cells, TableKind::Yellow),
        Err(RecordValidationError { column: 2, reason: Reason::OutOfRange })
    );
}

#[test]
fn short_row_is_refused() {
    assert_eq!(
        to_taxi_trip(&row(&["1", "2023-01-01 00:00:00"]), TableKind::Yellow),
        Err(RecordValidationError { column: 2, reason: Reason::Missing })
    );
    assert_eq!(
        to_taxi_trip(&yellow_row("1.0"), TableKind::Green),
        Err(RecordValidationError { column: 7, reason: Reason::Missing })
    );
}

#[test]
fn green_row_reads_trip_type() {
    let mut cells = yellow_row("1.0");
    cells.push("2.0".to_string());
    match to_taxi_trip(&cells, TableKind::Green) {
        Ok(TypedRecord::Green(g)) => assert_eq!(g.trip_type, TripType::Dispatch),
        other => panic!("unexpected {:?}", other),
    }
    cells[7] = "3".to_string();
    assert_eq!(
        to_taxi_trip(&cells, TableKind::Green),
        Err(RecordValidationError { column: 7, reason: Reason::OutOfRange })
    );
}

#[test]
fn stamps_given_directly() {
    let t = DateTime { date: Date { year: 2024, month: 2, day: 29 }, hour: 8, minute: 0, second: 0 };
    let r = record_with_stamps(&yellow_row("3"), TableKind::Yellow, Some(t), Some(t));
    assert!(matches!(r, Ok(TypedRecord::Yellow(y)) if y.trip.pickup == t && y.trip.trip_distance == 300));
    let r = record_with_stamps(&yellow_row("3"), TableKind::Yellow, Some(t), None);
    assert_eq!(r, Err(RecordValidationError { column: 2, reason: Reason::Malformed }));
}

#[test]
fn transform_keeps_accepted_rows_in_order() {
    let rows = vec![yellow_row("1.0"), yellow_row("-1.0"), yellow_row("2.0"), row(&[])];
    let out = transform_and_filter(&rows, TableKind::Yellow);
    assert_eq!(out.rows_filtered, 2);
    assert_eq!(out.batch.len(), 2);
    assert_eq!(out.batch.kind, TableKind::Yellow);
    let distances: Vec<i64> = out
        .batch
        .records
        .iter()
        .map(|r| match r {
            TypedRecord::Yellow(y) => y.trip.trip_distance,
            TypedRecord::Green(g) => g.trip.trip_distance,
        })
        .collect();
    assert_eq!(distances, vec![100, 200]);
}

#[test]
fn transform_of_no_rows() {
    let out = transform_and_filter(&Vec::new(), TableKind::Green);
    assert_eq!(out.rows_filtered, 0);
    assert!(out.batch.is_empty());
}

#[test]
fn columnar_file_names() {
    assert!(has_columnar_extension("yellow_tripdata_2023-01.parquet"));
    assert!(has_columnar_extension("a.b.parquet"));
    assert!(!has_columnar_extension(".parquet"));
    assert!(!has_columnar_extension("data.csv"));
    assert!(!has_columnar_extension("data.parquet.bak"));
    assert!(!has_columnar_extension(""));
}
