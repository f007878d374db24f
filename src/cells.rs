//! Reading numbers out of the text cells of a decoded row.
use vstd::prelude::*;

verus! {

/// Largest whole part accepted in a money or distance cell.
pub const MAX_WHOLE_UNITS: u64 = 1_000_000_000_000_000;

pub open spec fn is_digit(c: char) -> bool {
    '0' <= c && c <= '9'
}

pub open spec fn digit_value(c: char) -> int {
    c as int - '0' as int
}

pub open spec fn all_digits(s: Seq<char>) -> bool {
    forall|i: int| 0 <= i < s.len() ==> is_digit(#[trigger] s[i])
}

/// The number that a run of decimal digits writes.
pub open spec fn digits_value(s: Seq<char>) -> int
    decreases s.len(),
{
    if s.len() == 0 {
        0
    } else {
        digits_value(s.drop_last()) * 10 + digit_value(s.last())
    }
}

/// How many digits `s` starts with.
pub open spec fn lead_digits(s: Seq<char>) -> int
    decreases s.len(),
{
    if s.len() == 0 || !is_digit(s[0]) {
        0
    } else {
        1 + lead_digits(s.skip(1))
    }
}

/// A count cell: one or more decimal digits, nothing else.
pub open spec fn count_of(s: Seq<char>) -> Option<int> {
    if s.len() > 0 && all_digits(s) {
        Some(digits_value(s))
    } else {
        None
    }
}

/// Hundredths given by the digits after the decimal point; later digits are dropped.
pub open spec fn hundredths(frac: Seq<char>) -> int {
    if frac.len() == 0 {
        0
    } else if frac.len() == 1 {
        digit_value(frac[0]) * 10
    } else {
        digit_value(frac[0]) * 10 + digit_value(frac[1])
    }
}

/// An amount cell, in hundredths: an optional `-`, one or more digits, then
/// optionally a `.` and one or more digits. The whole part is at most
/// `MAX_WHOLE_UNITS`.
pub open spec fn amount_of(s: Seq<char>) -> Option<int> {
    let neg = s.len() > 0 && s[0] == '-';
    let body = if neg { s.skip(1) } else { s };
    let k = lead_digits(body);
    let whole = digits_value(body.take(k));
    let rest = body.skip(k);
    let frac = if rest.len() == 0 { Seq::empty() } else { rest.skip(1) };
    let magnitude = whole * 100 + hundredths(frac);
    if k == 0 || whole > MAX_WHOLE_UNITS {
        None
    } else if rest.len() == 0 || (rest[0] == '.' && frac.len() > 0 && all_digits(frac)) {
        Some(if neg { -magnitude } else { magnitude })
    } else {
        None
    }
}

/// What a count cell reads as, where it fits in a `u32`.
pub open spec fn count_cell(s: Seq<char>) -> Option<u32> {
    match count_of(s) {
        Some(v) => if v <= u32::MAX { Some(v as u32) } else { None },
        None => None,
    }
}

/// What an amount cell reads as, in hundredths.
pub open spec fn amount_cell(s: Seq<char>) -> Option<i64> {
    match amount_of(s) {
        Some(v) => Some(v as i64),
        None => None,
    }
}

/// An amount cell that holds a whole number that fits in a `u32` (`3` or `3.0`).
pub open spec fn whole_cell(s: Seq<char>) -> Option<u32> {
    match amount_of(s) {
        Some(v) => if 0 <= v && v % 100 == 0 && v / 100 <= u32::MAX {
            Some((v / 100) as u32)
        } else {
            None
        },
        None => None,
    }
}

proof fn lemma_amount_bounds(s: Seq<char>)
    ensures
        amount_of(s) is Some ==> -(MAX_WHOLE_UNITS * 100 + 99) <= amount_of(s)->0
            <= MAX_WHOLE_UNITS * 100 + 99,
{
    let neg = s.len() > 0 && s[0] == '-';
    let body = if neg { s.skip(1) } else { s };
    let k = lead_digits(body);
    let rest = body.skip(k);
    if amount_of(s) is Some {
        assert(all_digits(body.take(k))) by {
            lemma_lead_digits(body);
        }
        lemma_digits_value_prefix(body.take(k), 0);
        assert(body.take(k).take(0) =~= Seq::<char>::empty());
        if rest.len() > 0 {
            let frac = rest.skip(1);
            assert(is_digit(frac[0]));
            if frac.len() > 1 {
                assert(is_digit(frac[1]));
            }
        }
    }
}

proof fn lemma_lead_digits(s: Seq<char>)
    ensures
        0 <= lead_digits(s) <= s.len(),
        all_digits(s.take(lead_digits(s))),
    decreases s.len(),
{
    if s.len() > 0 && is_digit(s[0]) {
        lemma_lead_digits(s.skip(1));
        let k = lead_digits(s.skip(1));
        assert forall|i: int| 0 <= i < k + 1 implies is_digit(#[trigger] s.take(k + 1)[i]) by {
            if i > 0 {
                assert(s.take(k + 1)[i] == s.skip(1).take(k)[i - 1]);
            }
        }
    }
}

proof fn lemma_digits_value_prefix(s: Seq<char>, k: int)
    requires
        all_digits(s),
        0 <= k <= s.len(),
    ensures
        0 <= digits_value(s.take(k)) <= digits_value(s),
    decreases s.len(),
{
    if k == s.len() {
        assert(s.take(k) =~= s);
        if s.len() > 0 {
            lemma_digits_value_prefix(s.drop_last(), k - 1);
            assert(s.drop_last().take(k - 1) =~= s.drop_last());
            assert(is_digit(s[s.len() - 1]));
        }
    } else {
        lemma_digits_value_prefix(s.drop_last(), k);
        assert(s.drop_last().take(k) =~= s.take(k));
        lemma_digits_value_prefix(s.drop_last(), s.len() - 1);
        assert(s.drop_last().take(s.len() - 1) =~= s.drop_last());
        assert(is_digit(s[s.len() - 1]));
    }
}

/// Index just past the digits that start at `from`.
fn digit_run_end(s: &str, from: usize) -> (k: usize)
    requires
        from <= s@.len(),
    ensures
        from <= k <= s@.len(),
        k - from == lead_digits(s@.skip(from as int)),
        all_digits(s@.subrange(from as int, k as int)),
        k == s@.len() || !is_digit(s@[k as int]),
{
    let len = s.unicode_len();
    let mut i: usize = from;
    while i < len && is_digit_char(s.get_char(i))
        invariant
            len == s@.len(),
            from <= i <= len,
            i - from + lead_digits(s@.skip(i as int)) == lead_digits(s@.skip(from as int)),
            all_digits(s@.subrange(from as int, i as int)),
        decreases len - i,
    {
        assert(s@.skip(i as int).skip(1) =~= s@.skip(i + 1));
        assert(s@.subrange(from as int, i + 1) =~= s@.subrange(from as int, i as int).push(s@[i as int]));
        i = i + 1;
    }
    i
}

fn is_digit_char(c: char) -> (r: bool)
    ensures
        r == is_digit(c),
{
    '0' <= c && c <= '9'
}

/// Value of the digits `s[from..to]`, or `None` where it exceeds `bound`.
fn digits_up_to(s: &str, from: usize, to: usize, bound: u64) -> (r: Option<u64>)
    requires
        from <= to <= s@.len(),
        all_digits(s@.subrange(from as int, to as int)),
        bound <= u32::MAX || bound <= MAX_WHOLE_UNITS,
    ensures
        r is Some <==> digits_value(s@.subrange(from as int, to as int)) <= bound,
        r is Some ==> r->0 == digits_value(s@.subrange(from as int, to as int)),
{
    let ghost whole = s@.subrange(from as int, to as int);
    let mut value: u64 = 0;
    let mut i: usize = from;
    while i < to
        invariant
            from <= i <= to <= s@.len(),
            whole == s@.subrange(from as int, to as int),
            all_digits(whole),
            value == digits_value(s@.subrange(from as int, i as int)),
            value <= bound,
            bound <= u32::MAX || bound <= MAX_WHOLE_UNITS,
        decreases to - i,
    {
        let c = s.get_char(i);
        let ghost part = s@.subrange(from as int, i + 1);
        assert(part.drop_last() =~= s@.subrange(from as int, i as int));
        assert(part.last() == c);
        assert(whole[i - from] == c);
        let next = value * 10 + (c as u64 - '0' as u64);
        if next > bound {
            proof {
                assert(whole.take(i + 1 - from) =~= part);
                lemma_digits_value_prefix(whole, i + 1 - from);
            }
            return None;
        }
        value = next;
        i = i + 1;
    }
    Some(value)
}

/// Reads a count cell that fits in a `u32`.
pub fn parse_count(s: &str) -> (r: Option<u32>)
    ensures
        r == count_cell(s@),
{
    let len = s.unicode_len();
    let k = digit_run_end(s, 0);
    assert(s@.subrange(0, len as int) =~= s@);
    if k == 0 || k < len {
        proof {
            if k < len && len > 0 {
                assert(!is_digit(s@[k as int]));
            }
            if k == 0 && len > 0 {
                assert(!is_digit(s@[0]));
            }
        }
        return None;
    }
    match digits_up_to(s, 0, len, u32::MAX as u64) {
        Some(v) => Some(v as u32),
        None => None,
    }
}

/// Reads an amount cell, in hundredths.
pub fn parse_amount(s: &str) -> (r: Option<i64>)
    ensures
        r == amount_cell(s@),
{
    let len = s.unicode_len();
    let neg = len > 0 && s.get_char(0) == '-';
    let start: usize = if neg { 1 } else { 0 };
    let ghost body = if neg { s@.skip(1) } else { s@ };
    assert(body =~= s@.skip(start as int));
    let k = digit_run_end(s, start);
    if k == start {
        return None;
    }
    assert(body.take(k - start) =~= s@.subrange(start as int, k as int));
    assert(body.skip(k - start) =~= s@.skip(k as int));
    let whole = match digits_up_to(s, start, k, MAX_WHOLE_UNITS) {
        Some(w) => w,
        None => return None,
    };
    let mut cents: u64 = whole * 100;
    if k < len {
        if s.get_char(k) != '.' {
            return None;
        }
        let f = digit_run_end(s, k + 1);
        let ghost frac = s@.skip(k + 1);
        assert(s@.skip(k as int).skip(1) =~= frac);
        if f == k + 1 || f < len {
            proof {
                if f < len {
                    assert(frac[f - k - 1] == s@[f as int]);
                }
            }
            return None;
        }
        assert(frac =~= s@.subrange(k + 1, f as int));
        let d1 = s.get_char(k + 1);
        assert(frac[0] == d1);
        cents = cents + (d1 as u64 - '0' as u64) * 10;
        if k + 2 < len {
            let d2 = s.get_char(k + 2);
            assert(frac[1] == d2);
            cents = cents + (d2 as u64 - '0' as u64);
        }
        assert(cents == whole * 100 + hundredths(frac));
    } else {
        assert(s@.skip(k as int).len() == 0);
        assert(cents == whole * 100 + hundredths(Seq::<char>::empty()));
    }
    if neg {
        Some(-(cents as i64))
    } else {
        Some(cents as i64)
    }
}

/// Reads a whole-number cell that may be written as an amount (`2` or `2.0`).
pub fn parse_whole(s: &str) -> (r: Option<u32>)
    ensures
        r == whole_cell(s@),
{
    proof {
        lemma_amount_bounds(s@);
    }
    match parse_amount(s) {
        Some(v) => {
            if 0 <= v && v % 100 == 0 && v / 100 <= u32::MAX as i64 {
                Some((v / 100) as u32)
            } else {
                None
            }
        },
        None => None,
    }
}

} // verus!
