//! Which of the files found under the source directory are ingested.
use crate::schema::text_eq;
use vstd::prelude::*;

verus! {

pub const COLUMNAR_SUFFIX: &'static str = ".parquet";

/// The file name has the columnar-format extension: it ends in `.parquet`
/// with at least one character before the dot.
pub open spec fn is_columnar_name(name: Seq<char>) -> bool {
    name.len() > COLUMNAR_SUFFIX@.len() && name.subrange(
        name.len() - COLUMNAR_SUFFIX@.len(),
        name.len() as int,
    ) == COLUMNAR_SUFFIX@
}

/// Tells whether a file, by its name, is one to ingest.
pub fn has_columnar_extension(file_name: &str) -> (r: bool)
    ensures
        r == is_columnar_name(file_name@),
{
    proof {
        reveal_strlit(".parquet");
    }
    let n = file_name.unicode_len();
    let k = COLUMNAR_SUFFIX.unicode_len();
    if n <= k {
        return false;
    }
    let tail = file_name.substring_char(n - k, n);
    text_eq(tail, COLUMNAR_SUFFIX)
}

} // verus!
