//! Conversions between civil dates, times and UTC offsets and their ISO 8601
//! structural and textual forms.
//!
//! The civil side is what application code computes with: a calendar date, a
//! time of day and a fixed offset from UTC in whole minutes ([`civil`]). The
//! ISO 8601 side is what travels on the wire: a date in one of the three
//! encodings (calendar, week date, ordinal date) and a time whose offset is
//! split into hours and minutes ([`iso`]).
//!
//! [`date_to_iso8601`], [`time_to_iso8601`] and [`datetime_to_iso8601`] write
//! a civil value in ISO 8601 form; [`date_from_iso8601`],
//! [`time_from_iso8601`] and [`datetime_from_iso8601`] read one back, and
//! fail where the components name nothing that exists. The modules [`date`],
//! [`time_offset`] and [`datetime`] do the same to and from text.
//!
//! Validation of civil values, and the arithmetic of week dates and ordinal
//! dates, is the `time` crate's; reading and writing text is the `iso8601`
//! crate's. What is taken from the two is stated in [`time_calls`] and
//! [`iso8601_calls`]. What the conversions mean is said over the calendar of
//! [`calendar`], and [`laws`] proves what holds of them together.

pub mod calendar;
pub mod civil;
pub mod clip;
pub mod date;
pub mod date_conv;
pub mod datetime;
pub mod datetime_conv;
pub mod error;
pub mod iso;
pub mod iso8601_calls;
pub mod laws;
pub mod numerals;
pub mod time_calls;
pub mod time_conv;
pub mod time_offset;

pub use date_conv::{date_from_iso8601, date_to_iso8601};
pub use datetime_conv::{datetime_from_iso8601, datetime_to_iso8601};
pub use time_conv::{time_from_iso8601, time_to_iso8601};
