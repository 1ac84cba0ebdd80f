//! Civil dates as ISO 8601 text.

use crate::civil::CivilDate;
use crate::date_conv::{date_from_iso8601, date_to_iso, date_to_iso8601};
use crate::error::{DecodeError, Part};
use crate::iso::Iso8601Date;
use crate::iso8601_calls::{date_text, parse_date, parsed_date, parser_error, write_date};
use vstd::prelude::*;

verus! {

/// Whether `r` is the right answer for a date that the parser read as `iso`:
/// the civil date that `iso` is a way of writing, or a range failure of the
/// date where it writes none.
pub open spec fn is_reading_of(r: Result<CivilDate, DecodeError>, iso: Iso8601Date) -> bool {
    match r {
        Ok(civil) => iso.is_civil() && iso.denotes(civil),
        Err(DecodeError::Range(error)) => !iso.is_civil() && error.part == Part::Date,
        Err(DecodeError::Syntax(_)) => false,
    }
}

/// Whether `r` is the right answer for the text `text`: a syntax failure
/// with the parser's words where the parser refuses the text, and else the
/// right answer for what the parser read.
pub open spec fn is_reading_of_text(r: Result<CivilDate, DecodeError>, text: Seq<char>) -> bool {
    match parsed_date(text) {
        Some(iso) => is_reading_of(r, iso),
        None => r matches Err(DecodeError::Syntax(message)) && message@ == parser_error(text),
    }
}

/// Writes a civil date as text, in the calendar form.
pub fn serialize(date: &CivilDate) -> (text: String)
    ensures
        text@ == date_text(date_to_iso(*date)),
{
    write_date(date_to_iso8601(*date))
}

/// Writes a civil date as text if there is one, and nothing, not an empty
/// text, if there is none.
pub fn serialize_option(date: &Option<CivilDate>) -> (text: Option<String>)
    ensures
        match *date {
            Some(date) => text matches Some(text) && text@ == date_text(date_to_iso(date)),
            None => text is None,
        },
{
    match date {
        Some(date) => Some(serialize(date)),
        None => None,
    }
}

/// Turns what the parser made of a text into a civil date: the parser's
/// refusal becomes a syntax failure with the parser's words, and a date that
/// it read is converted, which may be a range failure.
pub fn from_parsed(parsed: Result<Iso8601Date, String>) -> (r: Result<CivilDate, DecodeError>)
    ensures
        match parsed {
            Ok(iso) => is_reading_of(r, iso),
            Err(message) => r == Err::<CivilDate, DecodeError>(DecodeError::Syntax(message)),
        },
{
    match parsed {
        Ok(iso) => match date_from_iso8601(iso) {
            Ok(civil) => Ok(civil),
            Err(error) => Err(DecodeError::Range(error)),
        },
        Err(message) => Err(DecodeError::Syntax(message)),
    }
}

/// Reads a civil date from text in any of the three encodings.
///
/// Text that the parser refuses is a syntax failure; text that it reads, but
/// that names no day that exists, is a range failure.
pub fn deserialize(text: &str) -> (r: Result<CivilDate, DecodeError>)
    ensures
        is_reading_of_text(r, text@),
{
    from_parsed(parse_date(text))
}

/// Reads a civil date from text if there is text, and gives no date, without
/// a look at any parser, if there is none.
pub fn deserialize_option(text: Option<&str>) -> (r: Result<Option<CivilDate>, DecodeError>)
    ensures
        match text {
            Some(text) => match r {
                Ok(Some(civil)) => is_reading_of_text(Ok(civil), text@),
                Ok(None) => false,
                Err(error) => is_reading_of_text(Err(error), text@),
            },
            None => r == Ok::<Option<CivilDate>, DecodeError>(None),
        },
{
    match text {
        Some(text) => match deserialize(text) {
            Ok(civil) => Ok(Some(civil)),
            Err(error) => Err(error),
        },
        None => Ok(None),
    }
}

} // verus!
