//! Civil datetimes as ISO 8601 text.

use crate::civil::CivilDateTime;
use crate::datetime_conv::{datetime_from_iso8601, datetime_to_iso, datetime_to_iso8601};
use crate::error::{DecodeError, Part};
use crate::iso::Iso8601DateTime;
use crate::iso8601_calls::{
    date_text, parse_datetime, parsed_datetime, parser_error, time_text, write_datetime,
};
use vstd::prelude::*;

verus! {

/// Whether `r` is the right answer for a datetime that the parser read as
/// `iso`: the civil datetime that `iso` is a way of writing, or a range
/// failure where it writes none, of the date if the date is at fault and of
/// the time otherwise.
pub open spec fn is_reading_of(r: Result<CivilDateTime, DecodeError>, iso: Iso8601DateTime) -> bool {
    match r {
        Ok(civil) => iso.is_civil() && iso.denotes(civil),
        Err(DecodeError::Range(error)) => {
            &&& !iso.is_civil()
            &&& error.part == (if iso.date.is_civil() {
                Part::Time
            } else {
                Part::Date
            })
        },
        Err(DecodeError::Syntax(_)) => false,
    }
}

/// Whether `r` is the right answer for the text `text`: a syntax failure
/// with the parser's words where the parser refuses the text, and else the
/// right answer for what the parser read.
pub open spec fn is_reading_of_text(r: Result<CivilDateTime, DecodeError>, text: Seq<char>) -> bool {
    match parsed_datetime(text) {
        Some(iso) => is_reading_of(r, iso),
        None => r matches Err(DecodeError::Syntax(message)) && message@ == parser_error(text),
    }
}

/// The text of `datetime`: its date in the calendar form, the letter T, and
/// its time of day with the offset.
pub open spec fn datetime_text(datetime: CivilDateTime) -> Seq<char> {
    let iso = datetime_to_iso(datetime);
    date_text(iso.date) + seq!['T'] + time_text(iso.time)
}

/// Writes a civil datetime as text.
pub fn serialize(datetime: &CivilDateTime) -> (text: String)
    requires
        datetime.offset.fits_iso(),
    ensures
        text@ == datetime_text(*datetime),
{
    write_datetime(datetime_to_iso8601(*datetime))
}

/// Writes a civil datetime as text if there is one, and nothing, not an
/// empty text, if there is none.
pub fn serialize_option(datetime: &Option<CivilDateTime>) -> (text: Option<String>)
    requires
        datetime matches Some(datetime) ==> datetime.offset.fits_iso(),
    ensures
        match *datetime {
            Some(datetime) => text matches Some(text) && text@ == datetime_text(datetime),
            None => text is None,
        },
{
    match datetime {
        Some(datetime) => Some(serialize(datetime)),
        None => None,
    }
}

/// Turns what the parser made of a text into a civil datetime: the parser's
/// refusal becomes a syntax failure with the parser's words, and a datetime
/// that it read is converted, which may be a range failure.
pub fn from_parsed(parsed: Result<Iso8601DateTime, String>) -> (r: Result<
    CivilDateTime,
    DecodeError,
>)
    ensures
        match parsed {
            Ok(iso) => is_reading_of(r, iso),
            Err(message) => r == Err::<CivilDateTime, DecodeError>(DecodeError::Syntax(message)),
        },
{
    match parsed {
        Ok(iso) => match datetime_from_iso8601(iso) {
            Ok(civil) => Ok(civil),
            Err(error) => Err(DecodeError::Range(error)),
        },
        Err(message) => Err(DecodeError::Syntax(message)),
    }
}

/// Reads a civil datetime from text.
///
/// Text that the parser refuses is a syntax failure; text that it reads, but
/// that names no day that exists or no time of day, is a range failure.
pub fn deserialize(text: &str) -> (r: Result<CivilDateTime, DecodeError>)
    ensures
        is_reading_of_text(r, text@),
{
    from_parsed(parse_datetime(text))
}

/// Reads a civil datetime from text if there is text, and gives none,
/// without a look at any parser, if there is none.
pub fn deserialize_option(text: Option<&str>) -> (r: Result<Option<CivilDateTime>, DecodeError>)
    ensures
        match text {
            Some(text) => match r {
                Ok(Some(civil)) => is_reading_of_text(Ok(civil), text@),
                Ok(None) => false,
                Err(error) => is_reading_of_text(Err(error), text@),
            },
            None => r == Ok::<Option<CivilDateTime>, DecodeError>(None),
        },
{
    match text {
        Some(text) => match deserialize(text) {
            Ok(civil) => Ok(Some(civil)),
            Err(error) => Err(error),
        },
        None => Ok(None),
    }
}

} // verus!
