//! The pre-flight check: the two aggregate queries against the target table
//! and the summary built from their answers.
use crate::calendar::{date_cell, parse_date, Date};
use crate::schema::{table_name_of, TableKind, PICKUP_DATE_COLUMN};
use vstd::prelude::*;

verus! {

/// How much data the target table already holds.
#[derive(Clone, Copy, Debug, PartialEq, Eq)]
pub struct VerificationResult {
    pub existing_row_count: u64,
    /// Earliest and latest date of the date column; absent for an empty table
    /// or where a bound does not read as a date.
    pub date_range: Option<(Date, Date)>,
}

pub open spec fn count_query_text(kind: TableKind) -> Seq<char> {
    "SELECT COUNT(*) FROM "@ + table_name_of(kind)
}

pub open spec fn range_query_text(kind: TableKind) -> Seq<char> {
    "SELECT MIN("@ + PICKUP_DATE_COLUMN@ + "), MAX("@ + PICKUP_DATE_COLUMN@ + ") FROM "@
        + table_name_of(kind)
}

/// The query that counts the rows of the table.
pub fn count_query(kind: TableKind) -> (r: String)
    ensures
        r@ == count_query_text(kind),
{
    let q = String::from_str("SELECT COUNT(*) FROM ");
    q.concat(kind.table_name())
}

/// The query that reads the earliest and latest date of the table's date column.
pub fn range_query(kind: TableKind) -> (r: String)
    ensures
        r@ == range_query_text(kind),
{
    let column = kind.date_column();
    let q = String::from_str("SELECT MIN(");
    let q = q.concat(column);
    let q = q.concat("), MAX(");
    let q = q.concat(column);
    let q = q.concat(") FROM ");
    q.concat(kind.table_name())
}

/// The date range, given the row count and the two bounds as read.
pub open spec fn range_from(count: u64, bounds: Option<(Option<Date>, Option<Date>)>) -> Option<(Date, Date)> {
    if count == 0 {
        None
    } else {
        match bounds {
            Some((Some(lo), Some(hi))) => Some((lo, hi)),
            _ => None,
        }
    }
}

/// The bounds as read from the answer to the range query.
pub open spec fn bounds_read(answer: Option<(String, String)>) -> Option<(Option<Date>, Option<Date>)> {
    match answer {
        Some((lo, hi)) => Some((date_cell(lo@), date_cell(hi@))),
        None => None,
    }
}

/// The date range, given the row count and the two bounds as read. An empty
/// table has no range, whatever its bounds; so has one where either bound
/// is missing or did not read as a date.
pub fn date_range_from(count: u64, bounds: Option<(Option<Date>, Option<Date>)>) -> (r: Option<(Date, Date)>)
    ensures
        r == range_from(count, bounds),
{
    if count == 0 {
        return None;
    }
    match bounds {
        Some((Some(lo), Some(hi))) => Some((lo, hi)),
        _ => None,
    }
}

/// The summary built from the answers to the two queries: `count_answer` is
/// the row of the count query, `range_answer` that of the range query, each
/// absent where the query gave no row. A bound that does not read as a date
/// leaves the range absent rather than failing the check.
pub fn verification_result(count_answer: Option<u64>, range_answer: Option<(String, String)>) -> (r: VerificationResult)
    ensures
        r.existing_row_count == match count_answer {
            Some(c) => c,
            None => 0,
        },
        r.date_range == range_from(r.existing_row_count, bounds_read(range_answer)),
        r.existing_row_count == 0 ==> r.date_range is None,
{
    let count = match count_answer {
        Some(c) => c,
        None => 0,
    };
    let bounds = match &range_answer {
        Some((lo, hi)) => Some((parse_date(lo.as_str()), parse_date(hi.as_str()))),
        None => None,
    };
    VerificationResult { existing_row_count: count, date_range: date_range_from(count, bounds) }
}

} // verus!
