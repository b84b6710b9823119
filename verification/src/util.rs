use crate::dateutil::{parse_naive, parsed_naive, RESPONSE_DATE_FORMAT};
use chrono::{NaiveDateTime, ParseError};
use vstd::prelude::*;

verus! {

/// Reads a date without zone in the format of the date fields of a
/// response, for use as the value of a date parameter.
pub fn date_parse(date_str: &str) -> (parsed: Result<NaiveDateTime, ParseError>)
    ensures
        parsed == parsed_naive(date_str@, RESPONSE_DATE_FORMAT@),
{
    parse_naive(date_str, RESPONSE_DATE_FORMAT)
}

} // verus!
