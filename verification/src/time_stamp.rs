//! The wire codec for timestamps.
//!
//! The host module writes a point in time as an RFC 3339 text such as
//! `2023-06-06T18:37:29.956787974Z`; a contract holds it as a count of
//! nanoseconds since the Unix epoch, in 64 unsigned bits. The calendar and the
//! text are chrono's work. This module owns what lies between chrono and the
//! contract: the seconds and nanoseconds that chrono takes and gives, the one
//! count that the contract keeps, and the error for a text that gives no
//! count.
//!
//! The counts reach from the epoch, 1970-01-01T00:00:00Z, to
//! 2554-07-21T23:34:33.709551615Z. Every count has its text, and every text of
//! an instant in that span has its count.
//!
//! The reader is chrono's parser of RFC 3339 proper. It takes the letters in
//! either case and a space for the `T`, as the RFC does; it refuses a text
//! without an offset, with `UTC` for the `Z`, or with a field short of its
//! digits.

use chrono::{DateTime, ParseError, SecondsFormat};
use vstd::prelude::*;

verus! {

/// Nanoseconds in one second.
pub const NANOS_PER_SECOND: u64 = 1_000_000_000;

/// The whole seconds in the largest count, `u64::MAX` nanoseconds.
pub const MAX_SECONDS: i64 = 18_446_744_073;

/// Why a text gave no timestamp.
#[derive(Clone, Copy, Debug, PartialEq, Eq)]
pub enum FormatError {
    /// The text is not an RFC 3339 date and time.
    NotRfc3339,
    /// The text is an RFC 3339 date and time, but no count holds its instant:
    /// it lies before the epoch, or after 2554-07-21T23:34:33.709551615Z,
    /// the instant of the count `u64::MAX`.
    OutOfRange,
}

/// `chrono::ParseError`, chrono's reason for refusing a text: taken from the
/// parser and dropped for a [`FormatError`].
#[verifier::external_type_specification]
#[verifier::external_body]
pub struct ExParseError(ParseError);

/// The text that chrono writes for the instant `seconds` whole seconds and
/// `subsec_nanos` nanoseconds from the Unix epoch: date and time in UTC with
/// `T` between them, as many of three, six or nine fractional digits as show
/// every nonzero digit of the second (none for a whole second), and `Z` for
/// the offset.
pub uninterp spec fn rfc3339_text(seconds: int, subsec_nanos: int) -> Seq<char>;

/// What chrono's RFC 3339 parser makes of `text`: `None` where it refuses the
/// text as no RFC 3339 date and time; else the whole seconds from the Unix
/// epoch to the instant that the text denotes, and the nanoseconds past that
/// second. The nanoseconds reach 1,000,000,000 and more only inside a leap
/// second (`:60`).
pub uninterp spec fn rfc3339_instant(text: Seq<char>) -> Option<(int, int)>;

/// `chrono::DateTime::from_timestamp`, then `DateTime::to_rfc3339_opts` with
/// `SecondsFormat::AutoSi` and `Z`.
///
/// Trusted, not proved, for seconds from the epoch to [`MAX_SECONDS`] and
/// nanoseconds short of a second:
/// - the first call gives a date and time: it gives none only for a day
///   outside chrono's dates or for nanoseconds that are no part of a second;
/// - the text is the one named [`rfc3339_text`];
/// - it ends in the `Z` that the formatter writes for the offset zero;
/// - chrono's own parser reads it back as the seconds and nanoseconds it was
///   written for. chrono documents that the date and time gives back its
///   seconds and nanoseconds; that the text does is read from the formatter
///   and the parser: the years, 1970 to 2554, have four digits, and the
///   formatter writes every nonzero fractional digit, so the parser finds
///   each field as it was written.
#[verifier::external_body]
fn format_rfc3339(seconds: i64, subsec_nanos: u32) -> (written: Option<String>)
    requires
        0 <= seconds <= MAX_SECONDS,
        subsec_nanos < NANOS_PER_SECOND,
    ensures
        written is Some,
        written.unwrap()@ == rfc3339_text(seconds as int, subsec_nanos as int),
        written.unwrap()@.len() > 0 && written.unwrap()@.last() == 'Z',
        rfc3339_instant(written.unwrap()@) == Some((seconds as int, subsec_nanos as int)),
{
    match DateTime::from_timestamp(seconds, subsec_nanos) {
        Some(date) => Some(date.to_rfc3339_opts(SecondsFormat::AutoSi, true)),
        None => None,
    }
}

/// `chrono::DateTime::parse_from_rfc3339`, then `DateTime::timestamp` and
/// `DateTime::timestamp_subsec_nanos` of what it parsed.
///
/// Trusted, not proved: the outcome is the one named [`rfc3339_instant`].
#[verifier::external_body]
fn parse_rfc3339(text: &str) -> (parsed: Result<(i64, u32), ParseError>)
    ensures
        match parsed {
            Ok((seconds, subsec_nanos)) => rfc3339_instant(text@) == Some(
                (seconds as int, subsec_nanos as int),
            ),
            Err(_) => rfc3339_instant(text@) is None,
        },
{
    match DateTime::parse_from_rfc3339(text) {
        Ok(date) => Ok((date.timestamp(), date.timestamp_subsec_nanos())),
        Err(error) => Err(error),
    }
}

/// The instant that `text` denotes, in nanoseconds from the Unix epoch;
/// `None` where `text` is not an RFC 3339 date and time.
pub open spec fn instant_nanos(text: Seq<char>) -> Option<int> {
    match rfc3339_instant(text) {
        Some((seconds, subsec_nanos)) => Some(seconds * NANOS_PER_SECOND + subsec_nanos),
        None => None,
    }
}

/// The count of the instant `seconds` whole seconds and `subsec_nanos`
/// nanoseconds from the Unix epoch: the nanoseconds between the two, where
/// the instant is not before the epoch and 64 unsigned bits hold the number.
pub open spec fn count_of(seconds: int, subsec_nanos: int) -> Result<u64, FormatError> {
    let nanos = seconds * NANOS_PER_SECOND + subsec_nanos;
    if 0 <= nanos <= u64::MAX {
        Ok(nanos as u64)
    } else {
        Err(FormatError::OutOfRange)
    }
}

/// The text of the timestamp `nanos`.
pub open spec fn encoded(nanos: u64) -> Seq<char> {
    rfc3339_text(nanos as int / NANOS_PER_SECOND as int, nanos as int % NANOS_PER_SECOND as int)
}

/// The timestamp of `text`, or why it has none.
pub open spec fn decoded(text: Seq<char>) -> Result<u64, FormatError> {
    match rfc3339_instant(text) {
        None => Err(FormatError::NotRfc3339),
        Some((seconds, subsec_nanos)) => count_of(seconds, subsec_nanos),
    }
}

/// Writes the timestamp `nanos`, a count of nanoseconds since the Unix epoch,
/// as the RFC 3339 text of the same instant in UTC, exact to the nanosecond.
///
/// This holds of every count: the text denotes the instant `nanos`
/// nanoseconds after the epoch, it reads back as `nanos`, and it denotes the
/// same instant as every other text that reads as `nanos`.
pub fn serialize_time_stamp(nanos: u64) -> (text: String)
    ensures
        text@ == encoded(nanos),
        text@.len() > 0 && text@.last() == 'Z',
        instant_nanos(text@) == Some(nanos as int),
        decoded(text@) == Ok::<u64, FormatError>(nanos),
        forall|other: Seq<char>| #[trigger]
            decoded(other) == Ok::<u64, FormatError>(nanos) ==> instant_nanos(other)
                == instant_nanos(text@),
{
    let seconds: u64 = nanos / NANOS_PER_SECOND;
    let subsec_nanos: u64 = nanos % NANOS_PER_SECOND;
    let written = format_rfc3339(seconds as i64, subsec_nanos as u32);
    written.unwrap()
}

/// The count of the instant that lies `seconds` whole seconds and
/// `subsec_nanos` nanoseconds from the Unix epoch, as chrono gives the two for
/// a text that it has read.
///
/// The count is `seconds` times 1,000,000,000 plus `subsec_nanos`. Fails with
/// [`FormatError::OutOfRange`] exactly where that number is negative (the
/// instant lies before the epoch) or above `u64::MAX`.
pub fn count_of_instant(seconds: i64, subsec_nanos: u32) -> (read: Result<u64, FormatError>)
    ensures
        read == count_of(seconds as int, subsec_nanos as int),
{
    let nanos: i128 = seconds as i128 * 1_000_000_000 + subsec_nanos as i128;
    if nanos < 0 || nanos > u64::MAX as i128 {
        Err(FormatError::OutOfRange)
    } else {
        Ok(nanos as u64)
    }
}

/// Reads an RFC 3339 date and time as a timestamp: the nanoseconds from the
/// Unix epoch to the instant that the text denotes, whatever its offset.
///
/// Fails with [`FormatError::NotRfc3339`] exactly where chrono's parser
/// refuses the text as no RFC 3339 date and time, and with
/// [`FormatError::OutOfRange`] exactly where the text is one whose instant
/// lies before the epoch or beyond the count `u64::MAX`.
pub fn deserialize_time_stamp(text: &str) -> (read: Result<u64, FormatError>)
    ensures
        read == decoded(text@),
{
    match parse_rfc3339(text) {
        Err(_) => Err(FormatError::NotRfc3339),
        Ok((seconds, subsec_nanos)) => count_of_instant(seconds, subsec_nanos),
    }
}

/// Reading back what was written gives the timestamp that was written: for
/// every count `nanos`, whatever text [`serialize_time_stamp`] returns for it,
/// [`deserialize_time_stamp`] returns `nanos` for that text.
pub proof fn lemma_reads_back_what_was_written(
    nanos: u64,
    written: String,
    given: &str,
    read: Result<u64, FormatError>,
)
    requires
        call_ensures(serialize_time_stamp, (nanos,), written),
        given@ == written@,
        call_ensures(deserialize_time_stamp, (given,), read),
    ensures
        read == Ok::<u64, FormatError>(nanos),
{
}

/// Writing back what was read gives a text of the same instant: for every
/// text that [`deserialize_time_stamp`] reads as a timestamp, whatever
/// [`serialize_time_stamp`] returns for that timestamp denotes the instant
/// that the given text denotes, now in UTC and exact to the nanosecond.
pub proof fn lemma_writes_back_the_instant_that_was_read(
    given: &str,
    nanos: u64,
    written: String,
)
    requires
        call_ensures(deserialize_time_stamp, (given,), Ok::<u64, FormatError>(nanos)),
        call_ensures(serialize_time_stamp, (nanos,), written),
    ensures
        instant_nanos(given@) == Some(nanos as int),
        instant_nanos(written@) == instant_nanos(given@),
        written@.len() > 0 && written@.last() == 'Z',
{
}

/// Texts of one instant read alike: where two texts denote the same instant,
/// whatever their offsets and however many digits their fractions have,
/// [`deserialize_time_stamp`] returns the same for both. A text that is read
/// as a count denotes the instant that many nanoseconds after the epoch.
pub proof fn lemma_texts_of_one_instant_read_alike(
    one: &str,
    other: &str,
    read_one: Result<u64, FormatError>,
    read_other: Result<u64, FormatError>,
)
    requires
        instant_nanos(one@) is Some,
        instant_nanos(one@) == instant_nanos(other@),
        call_ensures(deserialize_time_stamp, (one,), read_one),
        call_ensures(deserialize_time_stamp, (other,), read_other),
    ensures
        read_one == read_other,
        read_one matches Ok(nanos) ==> instant_nanos(one@) == Some(nanos as int),
        read_one is Ok <==> 0 <= instant_nanos(one@).unwrap() <= u64::MAX,
{
}

} // verus!
