use crate::dateutil::{
    date_string_parser, parse_either, parse_optional, parsed_utc, parsed_utc_either,
    parsed_utc_optional, UtcDateTime, RESPONSE_DATE_FORMAT,
};
use chrono::ParseError;
use vstd::prelude::*;

verus! {

/// The format of the values of a result column of type timestamp: the
/// digits after the point are read as a count of nanoseconds.
pub const TIMESTAMP_FORMAT: &'static str = "%Y-%m-%d %H:%M:%S.%f";

/// Reads a date in the format of the date fields of a response
/// (e.g. `submitted_at`).
pub fn date_parse(date_str: &str) -> (parsed: Result<UtcDateTime, ParseError>)
    ensures
        parsed == parsed_utc(date_str@, RESPONSE_DATE_FORMAT@),
{
    date_string_parser(date_str, RESPONSE_DATE_FORMAT)
}

/// Reads a date in the format of data fields of type timestamp.
pub fn dune_date(date_str: &str) -> (parsed: Result<UtcDateTime, ParseError>)
    ensures
        parsed == parsed_utc(date_str@, TIMESTAMP_FORMAT@),
{
    date_string_parser(date_str, TIMESTAMP_FORMAT)
}

/// Reads a date of a result row: in the format of a response where the
/// text has it, else as a timestamp. Where neither fits, the error is that
/// of the second reading.
pub fn datetime_from_str(text: &str) -> (parsed: Result<UtcDateTime, ParseError>)
    ensures
        parsed == parsed_utc_either(text@, RESPONSE_DATE_FORMAT@, TIMESTAMP_FORMAT@),
{
    parse_either(text, RESPONSE_DATE_FORMAT, TIMESTAMP_FORMAT)
}

/// Reads a date of a result row that may be absent. A text that is present
/// must be in the format of a response.
pub fn optional_datetime_from_str(text: Option<&str>) -> (parsed: Result<
    Option<UtcDateTime>,
    ParseError,
>)
    ensures
        parsed == parsed_utc_optional(text, RESPONSE_DATE_FORMAT@),
{
    parse_optional(text, RESPONSE_DATE_FORMAT)
}

} // verus!
