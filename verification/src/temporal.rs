//! Dates and times as `chrono` holds them.

use vstd::prelude::*;
use chrono::{DateTime, FixedOffset, NaiveDate, NaiveDateTime, ParseError};
use std::str::FromStr;
use crate::read::outcome;

verus! {

/// `chrono::NaiveDate`, a calendar date, carried as it is.
#[verifier::external_type_specification]
#[verifier::external_body]
pub struct ExNaiveDate(NaiveDate);

/// `chrono::NaiveDateTime`, a date and time of day, carried as it is.
#[verifier::external_type_specification]
#[verifier::external_body]
pub struct ExNaiveDateTime(NaiveDateTime);

/// `chrono::FixedOffset`, an offset from UTC, carried as it is.
#[verifier::external_type_specification]
#[verifier::external_body]
pub struct ExFixedOffset(FixedOffset);

/// `chrono::ParseError`, why a text is no date or time.
#[verifier::external_type_specification]
#[verifier::external_body]
pub struct ExParseError(ParseError);

/// An instant with a fixed offset from UTC: what a
/// `chrono::DateTime<FixedOffset>` holds.
#[derive(Clone, Copy, Debug, PartialEq, Eq, Hash)]
pub struct DateTimeTz {
    /// The date and time in UTC.
    pub utc: NaiveDateTime,
    /// The offset of the local time from UTC.
    pub offset: FixedOffset,
}

/// The date that `raw` writes, as `NaiveDate::from_str` reads it.
pub uninterp spec fn date_read(raw: Seq<char>) -> Option<NaiveDate>;

/// The date and time that `raw` writes, as `NaiveDateTime::from_str` reads it.
pub uninterp spec fn datetime_read(raw: Seq<char>) -> Option<NaiveDateTime>;

/// The instant and offset that `raw` writes, as
/// `DateTime::<FixedOffset>::from_str` reads it.
pub uninterp spec fn datetime_tz_read(raw: Seq<char>) -> Option<DateTimeTz>;

/// `NaiveDate::from_str`: the date that the text writes, or the error.
#[verifier::external_body]
pub(crate) fn parse_date(raw: &str) -> (read: Result<NaiveDate, ParseError>)
    ensures
        outcome(read) == date_read(raw@),
{
    NaiveDate::from_str(raw)
}

/// `NaiveDateTime::from_str`: the date and time that the text writes, or the
/// error.
#[verifier::external_body]
pub(crate) fn parse_datetime(raw: &str) -> (read: Result<NaiveDateTime, ParseError>)
    ensures
        outcome(read) == datetime_read(raw@),
{
    NaiveDateTime::from_str(raw)
}

/// `DateTime::<FixedOffset>::from_str`: the instant that the text writes, as
/// its time in UTC and its offset, or the error.
#[verifier::external_body]
pub(crate) fn parse_datetime_tz(raw: &str) -> (read: Result<DateTimeTz, ParseError>)
    ensures
        outcome(read) == datetime_tz_read(raw@),
{
    match DateTime::<FixedOffset>::from_str(raw) {
        Ok(datetime) => Ok(DateTimeTz { utc: datetime.naive_utc(), offset: *datetime.offset() }),
        Err(error) => Err(error),
    }
}

} // verus!
