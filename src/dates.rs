//! Shoot dates: reading a date the user typed, its canonical
//! `YYYY-MM-DD` text, and the stamp written into a photo's metadata.

use vstd::prelude::*;
use chrono::Datelike;
use crate::text::{push_char, radix_digits, radix_text};

verus! {

/// What chrono reads from `s` as a calendar date: year, month and day.
pub uninterp spec fn calendar_date_of(s: Seq<char>) -> Option<(i32, u32, u32)>;

/// Relies on chrono's `NaiveDate: FromStr`, which reads `year-month-day`;
/// every date it returns is a real date, so its month and day are in range.
#[verifier::external_body]
fn read_calendar_date(s: &str) -> (r: Option<(i32, u32, u32)>)
    ensures
        r == calendar_date_of(s@),
        r matches Some((y, m, d)) ==> 1 <= m <= 12 && 1 <= d <= 31,
{
    match s.parse::<chrono::NaiveDate>() {
        Ok(d) => Some((d.year(), d.month(), d.day())),
        Err(_) => None,
    }
}

/// The canonical text of a date: a four-digit year, two-digit month and day.
pub open spec fn iso_date_text(year: nat, month: nat, day: nat) -> Seq<char> {
    radix_digits(year, 10, 4) + seq!['-'] + radix_digits(month, 10, 2) + seq!['-'] + radix_digits(
        day,
        10,
        2,
    )
}

/// Why a shoot date was refused.
#[derive(Debug, Clone, Copy, PartialEq, Eq, Structural)]
pub enum DateError {
    /// The text is not a date.
    Malformed,
    /// The year does not fit in four digits.
    YearOutOfRange,
}

/// The canonical date for what the date reader returned.
pub open spec fn canonical_date(parsed: Option<(i32, u32, u32)>) -> Result<Seq<char>, DateError> {
    match parsed {
        None => Err(DateError::Malformed),
        Some((y, m, d)) => if 0 <= y <= 9999 {
            Ok(iso_date_text(y as nat, m as nat, d as nat))
        } else {
            Err(DateError::YearOutOfRange)
        },
    }
}

/// Writes a date read as `parsed` in its canonical form `YYYY-MM-DD`.
pub fn canonical_date_text(parsed: Option<(i32, u32, u32)>) -> (r: Result<String, DateError>)
    ensures
        r matches Ok(t) ==> canonical_date(parsed) == Ok::<Seq<char>, DateError>(t@),
        r matches Err(e) ==> canonical_date(parsed) == Err::<Seq<char>, DateError>(e),
{
    match parsed {
        None => Err(DateError::Malformed),
        Some((y, m, d)) => {
            if y < 0 || y > 9999 {
                return Err(DateError::YearOutOfRange);
            }
            let mut out = radix_text(y as u64, 10, 4);
            push_char(&mut out, '-');
            let month = radix_text(m as u64, 10, 2);
            out.append(month.as_str());
            push_char(&mut out, '-');
            let day = radix_text(d as u64, 10, 2);
            out.append(day.as_str());
            assert(out@ =~= iso_date_text(y as nat, m as nat, d as nat));
            Ok(out)
        },
    }
}

/// Reads a shoot date and writes it in canonical form; refuses text that is
/// not a date, and years that do not fit in four digits.
pub fn parse_shoot_date(date_str: &str) -> (r: Result<String, DateError>)
    ensures
        r matches Ok(t) ==> canonical_date(calendar_date_of(date_str@)) == Ok::<
            Seq<char>,
            DateError,
        >(t@),
        r matches Err(e) ==> canonical_date(calendar_date_of(date_str@)) == Err::<
            Seq<char>,
            DateError,
        >(e),
{
    let parsed = read_calendar_date(date_str);
    canonical_date_text(parsed)
}

/// Every `-` turned into `:`.
pub open spec fn dashes_to_colons(s: Seq<char>) -> Seq<char> {
    s.map_values(|c: char| if c == '-' { ':' } else { c })
}

/// The metadata time stamp for a shoot date: the date with `:` for `-`,
/// at noon.
pub open spec fn exif_stamp(shoot_date: Seq<char>) -> Seq<char> {
    dashes_to_colons(shoot_date) + " 12:00:00"@
}

/// Writes the metadata time stamp `YYYY:MM:DD 12:00:00` for a shoot date.
pub fn format_shoot_date_for_exif(shoot_date: &str) -> (r: String)
    ensures
        r@ == exif_stamp(shoot_date@),
{
    let n = shoot_date.unicode_len();
    let mut out = String::new();
    let mut i: usize = 0;
    while i < n
        invariant
            n == shoot_date@.len(),
            i <= n,
            out@ == dashes_to_colons(shoot_date@.take(i as int)),
        decreases n - i,
    {
        let c = shoot_date.get_char(i);
        push_char(&mut out, if c == '-' { ':' } else { c });
        assert(dashes_to_colons(shoot_date@.take(i as int + 1)) =~= dashes_to_colons(
            shoot_date@.take(i as int),
        ).push(if c == '-' { ':' } else { c }));
        i = i + 1;
    }
    assert(shoot_date@.take(n as int) =~= shoot_date@);
    out.append(" 12:00:00");
    out
}

/// The same stamp, as the import pipeline writes it.
pub fn format_exif_date(shoot_date: &str) -> (r: String)
    ensures
        r@ == exif_stamp(shoot_date@),
{
    format_shoot_date_for_exif(shoot_date)
}

/// Whether `c` is a decimal digit.
pub open spec fn is_digit(c: char) -> bool {
    '0' <= c <= '9'
}

/// Text of the shape `YYYY-MM-DD`: ten characters, digits but for the two
/// dashes.
pub open spec fn is_iso_date_shape(s: Seq<char>) -> bool {
    &&& s.len() == 10
    &&& s[4] == '-'
    &&& s[7] == '-'
    &&& forall|i: int| 0 <= i < 10 && i != 4 && i != 7 ==> is_digit(#[trigger] s[i])
}

/// For a date written `YYYY-MM-DD`, the stamp is exactly
/// `YYYY:MM:DD 12:00:00`: the digits are kept and the dashes become colons.
pub proof fn lemma_exif_stamp_of_iso_date(s: Seq<char>)
    requires
        is_iso_date_shape(s),
    ensures
        exif_stamp(s) == s.subrange(0, 4) + seq![':'] + s.subrange(5, 7) + seq![':'] + s.subrange(
            8,
            10,
        ) + " 12:00:00"@,
{
    let lhs = dashes_to_colons(s);
    let rhs = s.subrange(0, 4) + seq![':'] + s.subrange(5, 7) + seq![':'] + s.subrange(8, 10);
    assert forall|i: int| 0 <= i < 10 implies lhs[i] == rhs[i] by {
        if i != 4 && i != 7 {
            assert(is_digit(s[i]));
        }
    }
    assert(lhs =~= rhs);
}

} // verus!
