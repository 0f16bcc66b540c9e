//! The day and time a bookmark was added, as a card shows it.

use vstd::prelude::*;

verus! {

/// The error chrono gives for a text that it does not read as a date and time.
#[verifier::external_type_specification]
#[verifier::external_body]
pub struct ExParseError(chrono::ParseError);

/// Whether chrono reads `text` as a date and time: `DateTime::<Local>::from_str`
/// takes a relaxed form of RFC 3339 and tells by the text alone.
pub uninterp spec fn reads_as_date(text: Seq<char>) -> bool;

/// How a card writes the day and time: weekday, day, month, year, and the
/// time to the second.
pub open spec fn date_pattern() -> Seq<char> {
    "%a, %d %b %Y %H:%M:%S"@
}

/// Whether `c` is one of the digits `0` to `9`.
pub open spec fn is_digit(c: char) -> bool {
    '0' <= c <= '9'
}

/// Whether `c` is a letter of the English alphabet.
pub open spec fn is_letter(c: char) -> bool {
    'a' <= c <= 'z' || 'A' <= c <= 'Z'
}

/// Whether every character of `text` is a digit.
pub open spec fn all_digits(text: Seq<char>) -> bool {
    forall|i: int| 0 <= i < text.len() ==> is_digit(#[trigger] text[i])
}

/// Whether `text` is a year as a card writes it: four digits, or a sign and
/// at least four digits for a year before 0 or after 9999.
pub open spec fn is_year_text(text: Seq<char>) -> bool {
    ||| text.len() == 4 && all_digits(text)
    ||| text.len() >= 5 && (text[0] == '+' || text[0] == '-') && all_digits(
        text.subrange(1, text.len() as int),
    )
}

/// Whether `text` is a time of day as a card writes it: hours, minutes and
/// seconds, two digits each, with colons between them.
pub open spec fn is_time_text(text: Seq<char>) -> bool {
    &&& text.len() == 8
    &&& is_digit(text[0]) && is_digit(text[1]) && text[2] == ':'
    &&& is_digit(text[3]) && is_digit(text[4]) && text[5] == ':'
    &&& is_digit(text[6]) && is_digit(text[7])
}

/// Whether `text` has the shape in which a card writes a day and time, such
/// as `Mon, 15 Jan 2024 10:30:00`: a weekday of three letters and a comma,
/// the day in two digits, a month of three letters, the year and the time
/// of day, with one space between neighbours.
pub open spec fn is_date_text(text: Seq<char>) -> bool {
    &&& text.len() >= 25
    &&& is_letter(text[0]) && is_letter(text[1]) && is_letter(text[2])
    &&& text[3] == ',' && text[4] == ' '
    &&& is_digit(text[5]) && is_digit(text[6]) && text[7] == ' '
    &&& is_letter(text[8]) && is_letter(text[9]) && is_letter(text[10])
    &&& text[11] == ' '
    &&& is_year_text(text.subrange(12, text.len() - 9))
    &&& text[text.len() - 9] == ' '
    &&& is_time_text(text.subrange(text.len() - 8, text.len() as int))
}

/// What chrono's `DateTime::format` writes under `date_pattern` for the
/// moment that `text` gives, seen `offset` seconds east of UTC.
pub uninterp spec fn written_at(text: Seq<char>, offset: int) -> Seq<char>;

/// Whether `written` shows the moment that `text` gives, as a clock shows it
/// somewhere on earth: at an offset from UTC of less than a day.
pub open spec fn shows_moment_of(written: Seq<char>, text: Seq<char>) -> bool {
    exists|offset: int| -86_400 < offset < 86_400 && written == #[trigger] written_at(text, offset)
}

/// Reads `text` with chrono's `DateTime::<Local>::from_str`, writes the
/// moment in the machine's time zone with `DateTime::format`, and gives
/// beside the text the offset from UTC that chrono wrote it at, in seconds
/// (`FixedOffset::local_minus_utc`).
///
/// The contract claims that chrono's answer to whether `text` is a date and
/// time depends on `text` alone, and that what it writes depends on `text`
/// and that offset alone: chrono adds the offset to the moment and writes
/// the sum. Which offset it is depends on the machine's time zone; chrono
/// holds none of a day or more. The contract also claims the shape that
/// chrono gives every day and time under `date_pattern`: its English short
/// names for the weekday and the month, two digits for the day and for each
/// part of the time, and four digits for the year, or a sign and at least
/// four digits outside the years 0 to 9999. `format` fails on a pattern with
/// a specifier that chrono does not know; `date_pattern` has none.
#[verifier::external_body]
fn local_time_text(text: &str, pattern: &str) -> (shown: Result<(String, i32), chrono::ParseError>)
    requires
        pattern@ == date_pattern(),
    ensures
        shown.is_ok() == reads_as_date(text@),
        shown matches Ok(pair) ==> is_date_text(pair.0@),
        shown matches Ok(pair) ==> -86_400 < pair.1 < 86_400 && pair.0@ == written_at(
            text@,
            pair.1 as int,
        ),
{
    let moment = text.parse::<chrono::DateTime<chrono::Local>>()?;
    Ok((moment.format(pattern).to_string(), moment.offset().local_minus_utc()))
}

/// The day and time in `text`, written for the machine's time zone, or
/// nothing where `text` is no date and time.
pub fn date_added_text(text: &str) -> (shown: Option<String>)
    ensures
        shown.is_some() == reads_as_date(text@),
        shown matches Some(written) ==> is_date_text(written@) && shows_moment_of(
            written@,
            text@,
        ),
{
    match local_time_text(text, "%a, %d %b %Y %H:%M:%S") {
        Ok(pair) => Some(pair.0),
        Err(_) => None,
    }
}

} // verus!
