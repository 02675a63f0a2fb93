//! Indexing journal file names. The surrounding application lists a
//! directory and hands the plain file names over; this module selects the
//! entries that name a log for a day, a week or a month, and reads the
//! date out of each name.
//!
//! Daily logs are named `YYYY-MM-DD.md`, weekly logs `YYYY-Www.md` and
//! monthly logs `YYYY-MM.md`.

use crate::time::{days_in_month, Date};
use vstd::prelude::*;
use vstd::utf8::encode_utf8;

verus! {

pub open spec fn is_digit(b: u8) -> bool {
    48 <= b <= 57
}

pub open spec fn digit_val(b: u8) -> int {
    b - 48
}

/// The bytes spell a four-digit year, as in `2024`.
pub open spec fn is_year(s: Seq<u8>) -> bool {
    s.len() == 4 && is_digit(s[0]) && is_digit(s[1]) && is_digit(s[2]) && is_digit(s[3])
}

pub open spec fn year_val(s: Seq<u8>) -> int {
    digit_val(s[0]) * 1000 + digit_val(s[1]) * 100 + digit_val(s[2]) * 10 + digit_val(s[3])
}

pub open spec fn two_digit_val(s: Seq<u8>, at: int) -> int {
    digit_val(s[at]) * 10 + digit_val(s[at + 1])
}

/// The bytes spell `YYYY-MM-DD` for a real calendar date.
pub open spec fn is_date_stem(s: Seq<u8>) -> bool {
    &&& s.len() == 10
    &&& is_year(s.subrange(0, 4))
    &&& s[4] == 45
    &&& is_digit(s[5]) && is_digit(s[6])
    &&& s[7] == 45
    &&& is_digit(s[8]) && is_digit(s[9])
    &&& date_of_stem(s).wf()
}

/// The date a `YYYY-MM-DD` stem spells.
pub open spec fn date_of_stem(s: Seq<u8>) -> Date {
    Date {
        year: year_val(s.subrange(0, 4)) as i32,
        month: two_digit_val(s, 5) as u8,
        day: two_digit_val(s, 8) as u8,
    }
}

/// `.md`, the suffix of every journal file name.
pub open spec fn md_suffix() -> Seq<u8> {
    seq![46u8, 109u8, 100u8]
}

/// The bytes name a daily log: a real date stem followed by `.md`.
pub open spec fn is_daily_log_name(s: Seq<u8>) -> bool {
    s.len() == 13 && s.subrange(10, 13) == md_suffix() && is_date_stem(s.subrange(0, 10))
}

/// The bytes name a weekly log: `YYYY-Www.md` with a week number 1 to 53.
pub open spec fn is_weekly_log_name(s: Seq<u8>) -> bool {
    &&& s.len() == 11
    &&& s.subrange(8, 11) == md_suffix()
    &&& is_year(s.subrange(0, 4))
    &&& s[4] == 45
    &&& s[5] == 87
    &&& is_digit(s[6]) && is_digit(s[7])
    &&& 1 <= two_digit_val(s, 6) <= 53
}

/// The bytes name a monthly log: `YYYY-MM.md` with a month 1 to 12.
pub open spec fn is_monthly_log_name(s: Seq<u8>) -> bool {
    &&& s.len() == 10
    &&& s.subrange(7, 10) == md_suffix()
    &&& is_year(s.subrange(0, 4))
    &&& s[4] == 45
    &&& is_digit(s[5]) && is_digit(s[6])
    &&& 1 <= two_digit_val(s, 5) <= 12
}

/// The dates of the daily log names among `names`, in the order given.
pub open spec fn daily_dates(names: Seq<Seq<u8>>) -> Seq<Date>
    decreases names.len(),
{
    if names.len() == 0 {
        Seq::empty()
    } else {
        daily_dates(names.drop_last()) + if is_daily_log_name(names.last()) {
            seq![date_of_stem(names.last().subrange(0, 10))]
        } else {
            Seq::empty()
        }
    }
}

/// The `(year, week)` pairs of the weekly log names among `names`.
pub open spec fn weekly_indices(names: Seq<Seq<u8>>) -> Seq<(i32, u8)>
    decreases names.len(),
{
    if names.len() == 0 {
        Seq::empty()
    } else {
        weekly_indices(names.drop_last()) + if is_weekly_log_name(names.last()) {
            seq![
                (
                    year_val(names.last().subrange(0, 4)) as i32,
                    two_digit_val(names.last(), 6) as u8,
                ),
            ]
        } else {
            Seq::empty()
        }
    }
}

/// The `(year, month)` pairs of the monthly log names among `names`.
pub open spec fn monthly_indices(names: Seq<Seq<u8>>) -> Seq<(i32, u8)>
    decreases names.len(),
{
    if names.len() == 0 {
        Seq::empty()
    } else {
        monthly_indices(names.drop_last()) + if is_monthly_log_name(names.last()) {
            seq![
                (
                    year_val(names.last().subrange(0, 4)) as i32,
                    two_digit_val(names.last(), 5) as u8,
                ),
            ]
        } else {
            Seq::empty()
        }
    }
}

/// The bytes of each name, for stating what the selectors return.
pub open spec fn names_bytes(entries: Seq<String>) -> Seq<Seq<u8>> {
    entries.map_values(|s: String| encode_utf8(s@))
}

fn days_in_month_count(year: u32, month: u8) -> (r: u8)
    requires
        1 <= month <= 12,
    ensures
        r == days_in_month(year as int, month as int),
{
    if month == 2 {
        if year % 4 == 0 && (year % 100 != 0 || year % 400 == 0) {
            29
        } else {
            28
        }
    } else if month == 4 || month == 6 || month == 9 || month == 11 {
        30
    } else {
        31
    }
}

/// Reads a four-digit year out of `b` at positions `at .. at + 4`.
fn parse_year(b: &[u8], at: usize) -> (r: Option<u32>)
    requires
        at + 4 <= b@.len(),
    ensures
        match r {
            Some(y) => is_year(b@.subrange(at as int, at + 4)) && y == year_val(
                b@.subrange(at as int, at + 4),
            ),
            None => !is_year(b@.subrange(at as int, at + 4)),
        },
{
    let b0 = b[at];
    let b1 = b[at + 1];
    let b2 = b[at + 2];
    let b3 = b[at + 3];
    if 48 <= b0 && b0 <= 57 && 48 <= b1 && b1 <= 57 && 48 <= b2 && b2 <= 57 && 48 <= b3 && b3
        <= 57 {
        let y: u32 = (b0 - 48) as u32 * 1000 + (b1 - 48) as u32 * 100 + (b2 - 48) as u32 * 10 + (b3
            - 48) as u32;
        Some(y)
    } else {
        None
    }
}

/// Reads a two-digit number out of `b` at positions `at` and `at + 1`.
fn parse_two_digits(b: &[u8], at: usize) -> (r: Option<u8>)
    requires
        at + 2 <= b@.len(),
    ensures
        match r {
            Some(n) => is_digit(b@[at as int]) && is_digit(b@[at + 1]) && n == two_digit_val(
                b@,
                at as int,
            ),
            None => !(is_digit(b@[at as int]) && is_digit(b@[at + 1])),
        },
{
    let b0 = b[at];
    let b1 = b[at + 1];
    if 48 <= b0 && b0 <= 57 && 48 <= b1 && b1 <= 57 {
        Some((b0 - 48) * 10 + (b1 - 48))
    } else {
        None
    }
}

/// Whether `b` ends with `.md` at position `at` (which must be its tail).
fn has_md_suffix(b: &[u8], at: usize) -> (r: bool)
    requires
        at + 3 == b@.len(),
    ensures
        r == (b@.subrange(at as int, at + 3) == md_suffix()),
{
    let r = b[at] == 46 && b[at + 1] == 109 && b[at + 2] == 100;
    proof {
        if r {
            assert(b@.subrange(at as int, at + 3) =~= md_suffix());
        } else {
            assert(b@.subrange(at as int, at + 3) != md_suffix()) by {
                if b@.subrange(at as int, at + 3) == md_suffix() {
                    assert(b@[at as int] == md_suffix()[0]);
                    assert(b@[at + 1] == md_suffix()[1]);
                    assert(b@[at + 2] == md_suffix()[2]);
                }
            };
        }
    }
    r
}

/// Reads the date out of a daily log name, or `None` where the bytes do
/// not name a daily log.
pub fn parse_daily_name(b: &[u8]) -> (r: Option<Date>)
    ensures
        match r {
            Some(d) => is_daily_log_name(b@) && d == date_of_stem(b@.subrange(0, 10)) && d.wf(),
            None => !is_daily_log_name(b@),
        },
{
    if b.len() != 13 {
        return None;
    }
    if !has_md_suffix(b, 10) {
        return None;
    }
    let year = match parse_year(b, 0) {
        Some(y) => y,
        None => {
            proof {
                assert(b@.subrange(0, 10).subrange(0, 4) =~= b@.subrange(0, 4));
            }
            return None;
        },
    };
    proof {
        assert(b@.subrange(0, 10).subrange(0, 4) =~= b@.subrange(0, 4));
    }
    if b[4] != 45 || b[7] != 45 {
        return None;
    }
    let month = match parse_two_digits(b, 5) {
        Some(m) => m,
        None => { return None },
    };
    let day = match parse_two_digits(b, 8) {
        Some(d) => d,
        None => { return None },
    };
    proof {
        assert(b@.subrange(0, 10)[4] == b@[4]);
        assert(two_digit_val(b@.subrange(0, 10), 5) == two_digit_val(b@, 5));
        assert(two_digit_val(b@.subrange(0, 10), 8) == two_digit_val(b@, 8));
    }
    if month < 1 || month > 12 {
        return None;
    }
    if day < 1 || day > days_in_month_count(year, month) {
        return None;
    }
    Some(Date { year: year as i32, month, day })
}

/// Selects the daily logs among the given file names and returns their
/// dates, in the order the names were given. Names that do not spell a
/// real `YYYY-MM-DD.md` date are skipped.
pub fn read_files(entries: &Vec<String>) -> (r: Vec<Date>)
    ensures
        r@ == daily_dates(names_bytes(entries@)),
        forall|k: int| 0 <= k < r@.len() ==> (#[trigger] r@[k]).wf(),
{
    let mut r: Vec<Date> = Vec::new();
    let mut i: usize = 0;
    while i < entries.len()
        invariant
            i <= entries@.len(),
            r@ == daily_dates(names_bytes(entries@).take(i as int)),
            forall|k: int| 0 <= k < r@.len() ==> (#[trigger] r@[k]).wf(),
        decreases entries@.len() - i,
    {
        let b = entries[i].as_str().as_bytes();
        match parse_daily_name(b) {
            Some(d) => r.push(d),
            None => (),
        }
        proof {
            let taken = names_bytes(entries@).take(i + 1);
            assert(taken.drop_last() =~= names_bytes(entries@).take(i as int));
            assert(taken.last() == encode_utf8(entries@[i as int]@));
            assert(r@ =~= daily_dates(taken));
        }
        i += 1;
    }
    proof {
        assert(names_bytes(entries@).take(entries@.len() as int) =~= names_bytes(entries@));
    }
    r
}

/// Selects the weekly logs among the given file names and returns their
/// `(year, week)` pairs, in the order the names were given.
pub fn _index_weeklies(entries: &Vec<String>) -> (r: Vec<(i32, u8)>)
    ensures
        r@ == weekly_indices(names_bytes(entries@)),
{
    let mut r: Vec<(i32, u8)> = Vec::new();
    let mut i: usize = 0;
    while i < entries.len()
        invariant
            i <= entries@.len(),
            r@ == weekly_indices(names_bytes(entries@).take(i as int)),
        decreases entries@.len() - i,
    {
        let b = entries[i].as_str().as_bytes();
        match parse_weekly_name(b) {
            Some(p) => r.push(p),
            None => (),
        }
        proof {
            let taken = names_bytes(entries@).take(i + 1);
            assert(taken.drop_last() =~= names_bytes(entries@).take(i as int));
            assert(taken.last() == encode_utf8(entries@[i as int]@));
            assert(r@ =~= weekly_indices(taken));
        }
        i += 1;
    }
    proof {
        assert(names_bytes(entries@).take(entries@.len() as int) =~= names_bytes(entries@));
    }
    r
}

/// Selects the monthly logs among the given file names and returns their
/// `(year, month)` pairs, in the order the names were given.
pub fn _index_monthlies(entries: &Vec<String>) -> (r: Vec<(i32, u8)>)
    ensures
        r@ == monthly_indices(names_bytes(entries@)),
{
    let mut r: Vec<(i32, u8)> = Vec::new();
    let mut i: usize = 0;
    while i < entries.len()
        invariant
            i <= entries@.len(),
            r@ == monthly_indices(names_bytes(entries@).take(i as int)),
        decreases entries@.len() - i,
    {
        let b = entries[i].as_str().as_bytes();
        match parse_monthly_name(b) {
            Some(p) => r.push(p),
            None => (),
        }
        proof {
            let taken = names_bytes(entries@).take(i + 1);
            assert(taken.drop_last() =~= names_bytes(entries@).take(i as int));
            assert(taken.last() == encode_utf8(entries@[i as int]@));
            assert(r@ =~= monthly_indices(taken));
        }
        i += 1;
    }
    proof {
        assert(names_bytes(entries@).take(entries@.len() as int) =~= names_bytes(entries@));
    }
    r
}

/// Reads the `(year, week)` pair out of a weekly log name, or `None`.
pub fn parse_weekly_name(b: &[u8]) -> (r: Option<(i32, u8)>)
    ensures
        match r {
            Some(p) => is_weekly_log_name(b@) && p.0 == year_val(b@.subrange(0, 4)) && p.1
                == two_digit_val(b@, 6),
            None => !is_weekly_log_name(b@),
        },
{
    if b.len() != 11 {
        return None;
    }
    if !has_md_suffix(b, 8) {
        return None;
    }
    let year = match parse_year(b, 0) {
        Some(y) => y,
        None => { return None },
    };
    if b[4] != 45 || b[5] != 87 {
        return None;
    }
    let week = match parse_two_digits(b, 6) {
        Some(w) => w,
        None => { return None },
    };
    if week < 1 || week > 53 {
        return None;
    }
    Some((year as i32, week))
}

/// Reads the `(year, month)` pair out of a monthly log name, or `None`.
pub fn parse_monthly_name(b: &[u8]) -> (r: Option<(i32, u8)>)
    ensures
        match r {
            Some(p) => is_monthly_log_name(b@) && p.0 == year_val(b@.subrange(0, 4)) && p.1
                == two_digit_val(b@, 5),
            None => !is_monthly_log_name(b@),
        },
{
    if b.len() != 10 {
        return None;
    }
    if !has_md_suffix(b, 7) {
        return None;
    }
    let year = match parse_year(b, 0) {
        Some(y) => y,
        None => { return None },
    };
    if b[4] != 45 {
        return None;
    }
    let month = match parse_two_digits(b, 5) {
        Some(m) => m,
        None => { return None },
    };
    if month < 1 || month > 12 {
        return None;
    }
    Some((year as i32, month))
}

} // verus!
