use chrono::{DateTime, NaiveDateTime, ParseError, Utc};
use vstd::prelude::*;

verus! {

/// chrono's date and time without zone, carried through unread.
#[verifier::external_type_specification]
#[verifier::external_body]
pub struct ExNaiveDateTime(chrono::NaiveDateTime);

/// chrono's reason for not reading a text as a date, carried through unread.
#[verifier::external_type_specification]
#[verifier::external_body]
pub struct ExParseError(chrono::ParseError);

/// The formatter of `core::fmt`, which the printing of [`UtcDateTime`]
/// hands on to chrono.
#[verifier::external_type_specification]
#[verifier::external_body]
pub struct ExFormatter<'a>(core::fmt::Formatter<'a>);

/// The error of `core::fmt`.
#[verifier::external_type_specification]
#[verifier::external_body]
pub struct ExFmtError(core::fmt::Error);

/// A date and time in UTC, as chrono's `DateTime<Utc>` holds it.
///
/// The library never looks inside: it receives the value from chrono,
/// keeps it whole and hands it on. It prints as chrono prints it.
///
/// `DateTime` is generic over a time zone, bound by a trait of chrono of
/// which Verus cannot be told, so the type cannot be declared to Verus as
/// `NaiveDateTime` is. The value stands in a field that Verus does not
/// read instead; what is known of it is stated through [`in_utc`].
#[verifier::external_body]
pub struct UtcDateTime {
    inner: DateTime<Utc>,
}

/// What `NaiveDateTime::parse_from_str` makes of a text under a format:
/// the date and time that the text spells out, or why it spells none.
pub uninterp spec fn parsed_naive(text: Seq<char>, format: Seq<char>) -> Result<
    NaiveDateTime,
    ParseError,
>;

/// The UTC date and time with the given naive date and time: what
/// `DateTime::from_naive_utc_and_offset` makes of it with the offset `Utc`.
pub uninterp spec fn in_utc(naive: NaiveDateTime) -> UtcDateTime;

/// The text that chrono's `Display` writes for a naive date and time.
pub uninterp spec fn naive_text(naive: NaiveDateTime) -> Seq<char>;

/// The format of the date fields of a response, such as `submitted_at`:
/// the digits after the point are read as a count of nanoseconds.
pub const RESPONSE_DATE_FORMAT: &'static str = "%Y-%m-%dT%H:%M:%S.%fZ";

/// The format of a date and time to the second, without zone.
pub const PLAIN_DATE_FORMAT: &'static str = "%Y-%m-%dT%H:%M:%S";

/// What a text spells out as a UTC date and time under a format.
pub open spec fn parsed_utc(text: Seq<char>, format: Seq<char>) -> Result<
    UtcDateTime,
    ParseError,
> {
    match parsed_naive(text, format) {
        Ok(naive) => Ok(in_utc(naive)),
        Err(error) => Err(error),
    }
}

/// The first of two readings if it succeeded, else the second, whatever
/// came of it.
pub open spec fn first_accepted<D, E>(first: Result<D, E>, second: Result<D, E>) -> Result<D, E> {
    match first {
        Ok(date) => Ok(date),
        Err(_) => second,
    }
}

/// The reading of a text that may be absent: nothing where there is no
/// text, else what the reading came to.
pub open spec fn present_reading<D, E>(reading: Option<Result<D, E>>) -> Result<Option<D>, E> {
    match reading {
        None => Ok(None),
        Some(Ok(date)) => Ok(Some(date)),
        Some(Err(error)) => Err(error),
    }
}

/// What a text spells out under the first of two formats that accepts it.
/// Where neither does, the error is that of the second.
pub open spec fn parsed_utc_either(text: Seq<char>, first: Seq<char>, second: Seq<char>) -> Result<
    UtcDateTime,
    ParseError,
> {
    first_accepted(parsed_utc(text, first), parsed_utc(text, second))
}

/// What an optional text spells out under a format: nothing where there
/// is no text.
pub open spec fn parsed_utc_optional(text: Option<&str>, format: Seq<char>) -> Result<
    Option<UtcDateTime>,
    ParseError,
> {
    present_reading(
        match text {
            None => None,
            Some(text) => Some(parsed_utc(text@, format)),
        },
    )
}

/// Calls `NaiveDateTime::parse_from_str`. Trusted: the result is the one
/// that chrono's parser gives for this text and this format, which depends
/// on nothing else.
#[verifier::external_body]
pub(crate) fn parse_naive(text: &str, format: &str) -> (parsed: Result<NaiveDateTime, ParseError>)
    ensures
        parsed == parsed_naive(text@, format@),
{
    NaiveDateTime::parse_from_str(text, format)
}

/// Calls `DateTime::from_naive_utc_and_offset` with the offset `Utc`.
/// Trusted: the result holds the given naive date and time, unchanged.
#[verifier::external_body]
pub(crate) fn utc_from_naive(naive: NaiveDateTime) -> (utc: UtcDateTime)
    ensures
        utc == in_utc(naive),
{
    UtcDateTime { inner: DateTime::from_naive_utc_and_offset(naive, Utc) }
}

/// Calls `DateTime::naive_utc`. Trusted: the result is the naive date and
/// time that the value was made of.
#[verifier::external_body]
pub(crate) fn naive_from_utc(utc: &UtcDateTime) -> (naive: NaiveDateTime)
    ensures
        in_utc(naive) == *utc,
{
    utc.inner.naive_utc()
}

/// Calls chrono's `Display` for `NaiveDateTime` through `to_string`.
/// Trusted: the text depends on the value alone, and it is never shorter
/// than the nineteen characters of a date, a space and a time to the second.
#[verifier::external_body]
pub(crate) fn naive_to_string(naive: &NaiveDateTime) -> (text: String)
    ensures
        text@ == naive_text(*naive),
        text@.len() >= 19,
{
    naive.to_string()
}

impl UtcDateTime {
    /// The date and time without its zone.
    pub fn naive_utc(&self) -> (naive: NaiveDateTime)
        ensures
            in_utc(naive) == *self,
    {
        naive_from_utc(self)
    }
}

impl core::fmt::Debug for UtcDateTime {
    /// Writes what chrono's `Debug` writes for the `DateTime<Utc>`.
    #[verifier::external_body]
    fn fmt(&self, f: &mut core::fmt::Formatter<'_>) -> (done: Result<(), core::fmt::Error>) {
        core::fmt::Debug::fmt(&self.inner, f)
    }
}

impl core::fmt::Display for UtcDateTime {
    /// Writes what chrono's `Display` writes for the `DateTime<Utc>`.
    #[verifier::external_body]
    fn fmt(&self, f: &mut core::fmt::Formatter<'_>) -> (done: Result<(), core::fmt::Error>) {
        core::fmt::Display::fmt(&self.inner, f)
    }
}

impl Default for UtcDateTime {
    /// The default of chrono's `DateTime<Utc>`: the Unix epoch.
    #[verifier::external_body]
    fn default() -> (epoch: UtcDateTime) {
        UtcDateTime { inner: DateTime::default() }
    }
}

/// Reads a date and time in UTC from a text under a format.
pub(crate) fn date_string_parser(date_str: &str, format: &str) -> (parsed: Result<
    UtcDateTime,
    ParseError,
>)
    ensures
        parsed == parsed_utc(date_str@, format@),
{
    match parse_naive(date_str, format) {
        Ok(naive) => Ok(utc_from_naive(naive)),
        Err(error) => Err(error),
    }
}

/// Chooses between two readings of one text: the first if it succeeded,
/// else the second, whatever came of it.
pub fn accept_first<D, E>(first: Result<D, E>, second: Result<D, E>) -> (chosen: Result<D, E>)
    ensures
        chosen == first_accepted(first, second),
{
    match first {
        Ok(date) => Ok(date),
        Err(_) => second,
    }
}

/// Gives the reading of a text that may be absent: nothing where there
/// was no text to read, else what the reading came to.
pub fn accept_present<D, E>(reading: Option<Result<D, E>>) -> (read: Result<Option<D>, E>)
    ensures
        read == present_reading(reading),
{
    match reading {
        None => Ok(None),
        Some(Ok(date)) => Ok(Some(date)),
        Some(Err(error)) => Err(error),
    }
}

/// Reads a date and time under the first of two formats that accepts the
/// text.
pub(crate) fn parse_either(text: &str, first: &str, second: &str) -> (parsed: Result<
    UtcDateTime,
    ParseError,
>)
    ensures
        parsed == parsed_utc_either(text@, first@, second@),
{
    accept_first(date_string_parser(text, first), date_string_parser(text, second))
}

/// Reads an optional date and time under a format.
pub(crate) fn parse_optional(text: Option<&str>, format: &str) -> (parsed: Result<
    Option<UtcDateTime>,
    ParseError,
>)
    ensures
        parsed == parsed_utc_optional(text, format@),
{
    accept_present(
        match text {
            None => None,
            Some(text) => Some(date_string_parser(text, format)),
        },
    )
}

/// Reads a date in the format of the date fields of a response
/// (e.g. `submitted_at`).
pub fn date_parse(date_str: &str) -> (parsed: Result<UtcDateTime, ParseError>)
    ensures
        parsed == parsed_utc(date_str@, RESPONSE_DATE_FORMAT@),
{
    date_string_parser(date_str, RESPONSE_DATE_FORMAT)
}

/// Reads a date and time to the second, without zone.
pub fn dune_date(date_str: &str) -> (parsed: Result<UtcDateTime, ParseError>)
    ensures
        parsed == parsed_utc(date_str@, PLAIN_DATE_FORMAT@),
{
    date_string_parser(date_str, PLAIN_DATE_FORMAT)
}

/// Reads a date field: in the format of a response where the text has it,
/// else as a plain date and time. Where neither fits, the error is that of
/// the second reading.
pub fn datetime_from_str(text: &str) -> (parsed: Result<UtcDateTime, ParseError>)
    ensures
        parsed == parsed_utc_either(text@, RESPONSE_DATE_FORMAT@, PLAIN_DATE_FORMAT@),
{
    parse_either(text, RESPONSE_DATE_FORMAT, PLAIN_DATE_FORMAT)
}

/// Reads a date field that may be absent. A text that is present must be
/// in the format of a response.
pub fn optional_datetime_from_str(text: Option<&str>) -> (parsed: Result<
    Option<UtcDateTime>,
    ParseError,
>)
    ensures
        parsed == parsed_utc_optional(text, RESPONSE_DATE_FORMAT@),
{
    parse_optional(text, RESPONSE_DATE_FORMAT)
}

} // verus!
