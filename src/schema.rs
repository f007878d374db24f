//! The closed set of target tables, their record shapes, and the rule that
//! turns one decoded row into a typed record.
use crate::calendar::{is_before, parse_timestamp, precedes, timestamp_cell, DateTime};
use crate::cells::{amount_cell, count_cell, parse_amount, parse_count, parse_whole, whole_cell};
use vstd::prelude::*;

verus! {

/// The tables that rows can be ingested into.
#[derive(Clone, Copy, Debug, PartialEq, Eq)]
pub enum TableKind {
    Yellow,
    Green,
}

/// Raised when a table identifier names no known table.
#[derive(Debug, PartialEq, Eq)]
pub struct UnknownTableError {
    pub table: String,
}

/// Why a cell was refused.
#[derive(Clone, Copy, Debug, PartialEq, Eq)]
pub enum Reason {
    /// The row has no cell at that position.
    Missing,
    /// The cell's text is not of the column's type.
    Malformed,
    /// The cell's value fails the column's sanity bound.
    OutOfRange,
}

/// A row refused by a table's conversion rule, with the offending column.
#[derive(Clone, Copy, Debug, PartialEq, Eq)]
pub struct RecordValidationError {
    pub column: usize,
    pub reason: Reason,
}

/// How a green-taxi trip was hailed.
#[derive(Clone, Copy, Debug, PartialEq, Eq)]
pub enum TripType {
    StreetHail,
    Dispatch,
}

/// The fields both tables share. Distances are in hundredths of a mile,
/// money in cents.
#[derive(Clone, Copy, Debug, PartialEq, Eq)]
pub struct TripCore {
    pub vendor_id: u32,
    pub pickup: DateTime,
    pub dropoff: DateTime,
    pub passenger_count: u32,
    pub trip_distance: i64,
    pub fare_amount: i64,
    pub total_amount: i64,
}

#[derive(Clone, Copy, Debug, PartialEq, Eq)]
pub struct YellowTaxiTrip {
    pub trip: TripCore,
}

#[derive(Clone, Copy, Debug, PartialEq, Eq)]
pub struct GreenTaxiTrip {
    pub trip: TripCore,
    pub trip_type: TripType,
}

/// A validated row, in the shape of the table it belongs to.
#[derive(Clone, Copy, Debug, PartialEq, Eq)]
pub enum TypedRecord {
    Yellow(YellowTaxiTrip),
    Green(GreenTaxiTrip),
}

pub const YELLOW_TABLE: &'static str = "yellow_taxi_trips";

pub const GREEN_TABLE: &'static str = "green_taxi_trips";

/// Column positions of the cells that both tables read, in row order.
pub const VENDOR_COL: usize = 0;
pub const PICKUP_COL: usize = 1;
pub const DROPOFF_COL: usize = 2;
pub const PASSENGERS_COL: usize = 3;
pub const DISTANCE_COL: usize = 4;
pub const FARE_COL: usize = 5;
pub const TOTAL_COL: usize = 6;
/// Column position of the green table's trip type.
pub const TRIP_TYPE_COL: usize = 7;

/// The table that an identifier names, if any.
pub open spec fn kind_named(name: Seq<char>) -> Option<TableKind> {
    if name == YELLOW_TABLE@ {
        Some(TableKind::Yellow)
    } else if name == GREEN_TABLE@ {
        Some(TableKind::Green)
    } else {
        None
    }
}

pub open spec fn table_name_of(kind: TableKind) -> Seq<char> {
    match kind {
        TableKind::Yellow => YELLOW_TABLE@,
        TableKind::Green => GREEN_TABLE@,
    }
}

/// Number of cells a row of the table must have.
pub open spec fn width_of(kind: TableKind) -> nat {
    match kind {
        TableKind::Yellow => 7,
        TableKind::Green => 8,
    }
}

pub open spec fn refusal(column: usize, reason: Reason) -> RecordValidationError {
    RecordValidationError { column, reason }
}

/// The shared fields of a row, given the two timestamps read from it. The
/// first failing column, in column order, is reported; a dropoff before the
/// pickup is reported against the dropoff column after all cells have been read.
pub open spec fn core_of(
    row: Seq<String>,
    pickup: Option<DateTime>,
    dropoff: Option<DateTime>,
) -> Result<TripCore, RecordValidationError> {
    if row.len() <= TOTAL_COL {
        Err(refusal(row.len() as usize, Reason::Missing))
    } else if count_cell(row[VENDOR_COL as int]@) is None {
        Err(refusal(VENDOR_COL, Reason::Malformed))
    } else if pickup is None {
        Err(refusal(PICKUP_COL, Reason::Malformed))
    } else if dropoff is None {
        Err(refusal(DROPOFF_COL, Reason::Malformed))
    } else if whole_cell(row[PASSENGERS_COL as int]@) is None {
        Err(refusal(PASSENGERS_COL, Reason::Malformed))
    } else if amount_cell(row[DISTANCE_COL as int]@) is None {
        Err(refusal(DISTANCE_COL, Reason::Malformed))
    } else if amount_cell(row[DISTANCE_COL as int]@)->0 < 0 {
        Err(refusal(DISTANCE_COL, Reason::OutOfRange))
    } else if amount_cell(row[FARE_COL as int]@) is None {
        Err(refusal(FARE_COL, Reason::Malformed))
    } else if amount_cell(row[TOTAL_COL as int]@) is None {
        Err(refusal(TOTAL_COL, Reason::Malformed))
    } else if precedes(dropoff->0, pickup->0) {
        Err(refusal(DROPOFF_COL, Reason::OutOfRange))
    } else {
        Ok(
            TripCore {
                vendor_id: count_cell(row[VENDOR_COL as int]@)->0,
                pickup: pickup->0,
                dropoff: dropoff->0,
                passenger_count: whole_cell(row[PASSENGERS_COL as int]@)->0,
                trip_distance: amount_cell(row[DISTANCE_COL as int]@)->0,
                fare_amount: amount_cell(row[FARE_COL as int]@)->0,
                total_amount: amount_cell(row[TOTAL_COL as int]@)->0,
            },
        )
    }
}

/// What a trip-type cell reads as: `1` is a street hail, `2` a dispatch.
pub open spec fn trip_type_of(s: Seq<char>) -> Result<TripType, Reason> {
    match whole_cell(s) {
        None => Err(Reason::Malformed),
        Some(v) => if v == 1 {
            Ok(TripType::StreetHail)
        } else if v == 2 {
            Ok(TripType::Dispatch)
        } else {
            Err(Reason::OutOfRange)
        },
    }
}

/// The record that a row becomes in a table, given the two timestamps read from it.
pub open spec fn record_from(
    row: Seq<String>,
    kind: TableKind,
    pickup: Option<DateTime>,
    dropoff: Option<DateTime>,
) -> Result<TypedRecord, RecordValidationError> {
    match core_of(row, pickup, dropoff) {
        Err(e) => Err(e),
        Ok(trip) => match kind {
            TableKind::Yellow => Ok(TypedRecord::Yellow(YellowTaxiTrip { trip })),
            TableKind::Green => if row.len() <= TRIP_TYPE_COL {
                Err(refusal(row.len() as usize, Reason::Missing))
            } else {
                match trip_type_of(row[TRIP_TYPE_COL as int]@) {
                    Ok(trip_type) => Ok(TypedRecord::Green(GreenTaxiTrip { trip, trip_type })),
                    Err(reason) => Err(refusal(TRIP_TYPE_COL, reason)),
                }
            },
        },
    }
}

/// The timestamp that cell `i` of a row holds, if the row has that cell.
pub open spec fn stamp_at(row: Seq<String>, i: int) -> Option<DateTime> {
    if i < row.len() {
        timestamp_cell(row[i]@)
    } else {
        None
    }
}

/// The record that a row becomes in a table, or why it is refused.
pub open spec fn record_of(row: Seq<String>, kind: TableKind) -> Result<
    TypedRecord,
    RecordValidationError,
> {
    record_from(row, kind, stamp_at(row, PICKUP_COL as int), stamp_at(row, DROPOFF_COL as int))
}

pub(crate) fn text_eq(a: &str, b: &str) -> (r: bool)
    ensures
        r == (a@ == b@),
{
    let n = a.unicode_len();
    if n != b.unicode_len() {
        return false;
    }
    let mut i: usize = 0;
    while i < n
        invariant
            n == a@.len() == b@.len(),
            i <= n,
            a@.take(i as int) == b@.take(i as int),
        decreases n - i,
    {
        if a.get_char(i) != b.get_char(i) {
            return false;
        }
        assert(a@.take(i + 1) =~= a@.take(i as int).push(a@[i as int]));
        assert(b@.take(i + 1) =~= b@.take(i as int).push(b@[i as int]));
        i = i + 1;
    }
    assert(a@.take(n as int) =~= a@);
    assert(b@.take(n as int) =~= b@);
    true
}

impl TableKind {
    /// Looks up the table that an identifier names. Any other identifier is
    /// refused, before anything else is done.
    pub fn from_table_name(name: &str) -> (r: Result<TableKind, UnknownTableError>)
        ensures
            r is Ok <==> kind_named(name@) is Some,
            r is Ok ==> r->Ok_0 == kind_named(name@)->0,
            r is Err ==> r->Err_0.table@ == name@,
    {
        proof {
            reveal_strlit("yellow_taxi_trips");
            reveal_strlit("green_taxi_trips");
        }
        if text_eq(name, YELLOW_TABLE) {
            Ok(TableKind::Yellow)
        } else if text_eq(name, GREEN_TABLE) {
            Ok(TableKind::Green)
        } else {
            Err(UnknownTableError { table: String::from_str(name) })
        }
    }

    /// The identifier of the table.
    pub fn table_name(&self) -> (r: &'static str)
        ensures
            r@ == table_name_of(*self),
    {
        match self {
            TableKind::Yellow => YELLOW_TABLE,
            TableKind::Green => GREEN_TABLE,
        }
    }

    /// The date column that summarises a table's coverage.
    pub fn date_column(&self) -> (r: &'static str)
        ensures
            r@ == PICKUP_DATE_COLUMN@,
    {
        PICKUP_DATE_COLUMN
    }
}

pub const PICKUP_DATE_COLUMN: &'static str = "pickup_date";

/// Reads the shared fields of a row, given the two timestamps read from it.
pub fn trip_core(row: &Vec<String>, pickup: Option<DateTime>, dropoff: Option<DateTime>) -> (r: Result<
    TripCore,
    RecordValidationError,
>)
    ensures
        r == core_of(row@, pickup, dropoff),
{
    if row.len() <= TOTAL_COL {
        return Err(RecordValidationError { column: row.len(), reason: Reason::Missing });
    }
    let vendor_id = match parse_count(row[VENDOR_COL].as_str()) {
        Some(v) => v,
        None => return Err(RecordValidationError { column: VENDOR_COL, reason: Reason::Malformed }),
    };
    let pickup = match pickup {
        Some(t) => t,
        None => return Err(RecordValidationError { column: PICKUP_COL, reason: Reason::Malformed }),
    };
    let dropoff = match dropoff {
        Some(t) => t,
        None => return Err(RecordValidationError { column: DROPOFF_COL, reason: Reason::Malformed }),
    };
    let passenger_count = match parse_whole(row[PASSENGERS_COL].as_str()) {
        Some(v) => v,
        None => return Err(
            RecordValidationError { column: PASSENGERS_COL, reason: Reason::Malformed },
        ),
    };
    let trip_distance = match parse_amount(row[DISTANCE_COL].as_str()) {
        Some(v) => v,
        None => return Err(
            RecordValidationError { column: DISTANCE_COL, reason: Reason::Malformed },
        ),
    };
    if trip_distance < 0 {
        return Err(RecordValidationError { column: DISTANCE_COL, reason: Reason::OutOfRange });
    }
    let fare_amount = match parse_amount(row[FARE_COL].as_str()) {
        Some(v) => v,
        None => return Err(RecordValidationError { column: FARE_COL, reason: Reason::Malformed }),
    };
    let total_amount = match parse_amount(row[TOTAL_COL].as_str()) {
        Some(v) => v,
        None => return Err(RecordValidationError { column: TOTAL_COL, reason: Reason::Malformed }),
    };
    if is_before(&dropoff, &pickup) {
        return Err(RecordValidationError { column: DROPOFF_COL, reason: Reason::OutOfRange });
    }
    Ok(
        TripCore {
            vendor_id,
            pickup,
            dropoff,
            passenger_count,
            trip_distance,
            fare_amount,
            total_amount,
        },
    )
}

/// Builds the record for a table from a row and the two timestamps read from it.
pub fn record_with_stamps(
    row: &Vec<String>,
    kind: TableKind,
    pickup: Option<DateTime>,
    dropoff: Option<DateTime>,
) -> (r: Result<TypedRecord, RecordValidationError>)
    ensures
        r == record_from(row@, kind, pickup, dropoff),
{
    let trip = match trip_core(row, pickup, dropoff) {
        Ok(t) => t,
        Err(e) => return Err(e),
    };
    match kind {
        TableKind::Yellow => Ok(TypedRecord::Yellow(YellowTaxiTrip { trip })),
        TableKind::Green => {
            if row.len() <= TRIP_TYPE_COL {
                return Err(RecordValidationError { column: row.len(), reason: Reason::Missing });
            }
            match parse_whole(row[TRIP_TYPE_COL].as_str()) {
                None => Err(RecordValidationError { column: TRIP_TYPE_COL, reason: Reason::Malformed }),
                Some(v) => if v == 1 {
                    Ok(TypedRecord::Green(GreenTaxiTrip { trip, trip_type: TripType::StreetHail }))
                } else if v == 2 {
                    Ok(TypedRecord::Green(GreenTaxiTrip { trip, trip_type: TripType::Dispatch }))
                } else {
                    Err(RecordValidationError { column: TRIP_TYPE_COL, reason: Reason::OutOfRange })
                },
            }
        },
    }
}

/// Converts one decoded row into a record of the table, or says which column
/// refused it. Never fails for more than this one row.
pub fn to_taxi_trip(row: &Vec<String>, kind: TableKind) -> (r: Result<TypedRecord, RecordValidationError>)
    ensures
        r == record_of(row@, kind),
{
    let pickup = if PICKUP_COL < row.len() {
        parse_timestamp(row[PICKUP_COL].as_str())
    } else {
        None
    };
    let dropoff = if DROPOFF_COL < row.len() {
        parse_timestamp(row[DROPOFF_COL].as_str())
    } else {
        None
    };
    record_with_stamps(row, kind, pickup, dropoff)
}

} // verus!
