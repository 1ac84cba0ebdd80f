//! Civil times of day with their offset from UTC as ISO 8601 text.

use crate::civil::{CivilOffset, CivilTime};
use crate::error::{DecodeError, Part};
use crate::iso::Iso8601Time;
use crate::iso8601_calls::{parse_time, parsed_time, parser_error, time_text, write_time};
use crate::time_conv::{time_from_iso8601, time_to_iso, time_to_iso8601};
use vstd::prelude::*;

verus! {

/// Whether `r` is the right answer for a time that the parser read as `iso`:
/// the civil time of day that `iso` is a way of writing, with the offset
/// that its two offset fields add up to, or a range failure of the time
/// where it writes none.
pub open spec fn is_reading_of(
    r: Result<(CivilTime, CivilOffset), DecodeError>,
    iso: Iso8601Time,
) -> bool {
    match r {
        Ok((time, offset)) => {
            &&& iso.is_civil()
            &&& iso.denotes(time)
            &&& offset.minutes == iso.total_offset_minutes()
        },
        Err(DecodeError::Range(error)) => !iso.is_civil() && error.part == Part::Time,
        Err(DecodeError::Syntax(_)) => false,
    }
}

/// Whether `r` is the right answer for the text `text`: a syntax failure
/// with the parser's words where the parser refuses the text, and else the
/// right answer for what the parser read.
pub open spec fn is_reading_of_text(
    r: Result<(CivilTime, CivilOffset), DecodeError>,
    text: Seq<char>,
) -> bool {
    match parsed_time(text) {
        Some(iso) => is_reading_of(r, iso),
        None => r matches Err(DecodeError::Syntax(message)) && message@ == parser_error(text),
    }
}

/// Writes a civil time of day and its offset from UTC as text.
pub fn serialize(value: &(CivilTime, CivilOffset)) -> (text: String)
    requires
        value.1.fits_iso(),
    ensures
        text@ == time_text(time_to_iso(value.0, value.1)),
{
    write_time(time_to_iso8601(value.0, value.1))
}

/// Writes a civil time of day and its offset as text if there is one, and
/// nothing, not an empty text, if there is none.
pub fn serialize_option(value: &Option<(CivilTime, CivilOffset)>) -> (text: Option<String>)
    requires
        value matches Some(value) ==> value.1.fits_iso(),
    ensures
        match *value {
            Some(value) => text matches Some(text) && text@ == time_text(
                time_to_iso(value.0, value.1),
            ),
            None => text is None,
        },
{
    match value {
        Some(value) => Some(serialize(value)),
        None => None,
    }
}

/// Turns what the parser made of a text into a civil time of day and an
/// offset: the parser's refusal becomes a syntax failure with the parser's
/// words, and a time that it read is converted, which may be a range
/// failure.
pub fn from_parsed(parsed: Result<Iso8601Time, String>) -> (r: Result<
    (CivilTime, CivilOffset),
    DecodeError,
>)
    ensures
        match parsed {
            Ok(iso) => is_reading_of(r, iso),
            Err(message) => r == Err::<(CivilTime, CivilOffset), DecodeError>(
                DecodeError::Syntax(message),
            ),
        },
{
    match parsed {
        Ok(iso) => {
            let (time, offset) = time_from_iso8601(iso);
            match time {
                Ok(time) => Ok((time, offset)),
                Err(error) => Err(DecodeError::Range(error)),
            }
        },
        Err(message) => Err(DecodeError::Syntax(message)),
    }
}

/// Reads a civil time of day and its offset from UTC from text.
///
/// Text that the parser refuses is a syntax failure; text that it reads, but
/// with a component of the time of day out of range, is a range failure.
pub fn deserialize(text: &str) -> (r: Result<(CivilTime, CivilOffset), DecodeError>)
    ensures
        is_reading_of_text(r, text@),
{
    from_parsed(parse_time(text))
}

/// Reads a civil time of day and its offset from text if there is text, and
/// gives none, without a look at any parser, if there is none.
pub fn deserialize_option(text: Option<&str>) -> (r: Result<
    Option<(CivilTime, CivilOffset)>,
    DecodeError,
>)
    ensures
        match text {
            Some(text) => match r {
                Ok(Some(value)) => is_reading_of_text(Ok(value), text@),
                Ok(None) => false,
                Err(error) => is_reading_of_text(Err(error), text@),
            },
            None => r == Ok::<Option<(CivilTime, CivilOffset)>, DecodeError>(None),
        },
{
    match text {
        Some(text) => match deserialize(text) {
            Ok(value) => Ok(Some(value)),
            Err(error) => Err(error),
        },
        None => Ok(None),
    }
}

} // verus!
