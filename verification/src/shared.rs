//! Shared types and utility functions: the type error, request identifiers,
//! timestamps and text helpers.

use vstd::prelude::*;
use rand::RngExt;
use crate::text::{join, decimal, push_decimal, push_signed_decimal, signed_decimal};
use vstd::utf8::{encode_utf8, is_ascii_chars, is_ascii_chars_encode_utf8};

verus! {

// *** Error types ***

/// Errors in types and their uses.
#[derive(Debug, Clone, PartialEq, Eq)]
#[non_exhaustive]
pub enum TypeError {
    /// Error converting data from one type to another type
    ConversionError(String),
    /// Error in reading or writing data
    InputOutputError(String),
    /// Error in getting requested resources
    ResourceAllocationError(String),
    /// Error because the provided value is not valid
    ValidationError(String),
}

/// What the outside error types that a `TypeError` is made from report of
/// themselves: the kind flags of an HTTP client error and its message.
#[derive(Debug, Clone)]
pub struct HttpErrorFacts {
    /// The error came from building the request.
    pub is_builder: bool,
    /// The error came from reading or writing the request or response body.
    pub is_body: bool,
    /// The error came from decoding the response body.
    pub is_decode: bool,
    /// The error's own message.
    pub message: String,
    /// The error's message followed by those of the errors that caused it.
    pub root_cause: String,
}

impl TypeError {
    /// The message that the error carries.
    pub open spec fn message_of(self) -> Seq<char> {
        match self {
            TypeError::ConversionError(m) => m@,
            TypeError::InputOutputError(m) => m@,
            TypeError::ResourceAllocationError(m) => m@,
            TypeError::ValidationError(m) => m@,
        }
    }

    /// The text the error is displayed as.
    pub open spec fn display_text(self) -> Seq<char> {
        match self {
            TypeError::ConversionError(m) => "Type Conversion Error: "@ + m@,
            TypeError::InputOutputError(m) => "Input / Output Error: "@ + m@,
            TypeError::ResourceAllocationError(m) => "Resource Allocation Error: "@ + m@,
            TypeError::ValidationError(m) => "Validation Error: "@ + m@,
        }
    }

    /// The text the error is shown as when debugging.
    pub open spec fn debug_text(self) -> Seq<char> {
        match self {
            TypeError::ConversionError(m) => "Conversion Error: "@ + m@,
            TypeError::InputOutputError(m) => "Input / Output Error: "@ + m@,
            TypeError::ResourceAllocationError(m) => "Resource Allocation Error: "@ + m@,
            TypeError::ValidationError(m) => "Validation Error: "@ + m@,
        }
    }

    /// The HTTP status a response that reports the error carries.
    pub open spec fn spec_status_code(self) -> u16 {
        match self {
            TypeError::ValidationError(_) => 400,
            _ => 500,
        }
    }

    /// The text the error is displayed as.
    pub fn to_string(&self) -> (s: String)
        ensures
            s@ == self.display_text(),
    {
        let (prefix, message) = match self {
            TypeError::ConversionError(m) => ("Type Conversion Error: ", m),
            TypeError::InputOutputError(m) => ("Input / Output Error: ", m),
            TypeError::ResourceAllocationError(m) => ("Resource Allocation Error: ", m),
            TypeError::ValidationError(m) => ("Validation Error: ", m),
        };
        let mut s = String::from_str(prefix);
        s.append(message.as_str());
        s
    }

    /// The text the error is shown as when debugging.
    pub fn debug_string(&self) -> (s: String)
        ensures
            s@ == self.debug_text(),
    {
        let (prefix, message) = match self {
            TypeError::ConversionError(m) => ("Conversion Error: ", m),
            TypeError::InputOutputError(m) => ("Input / Output Error: ", m),
            TypeError::ResourceAllocationError(m) => ("Resource Allocation Error: ", m),
            TypeError::ValidationError(m) => ("Validation Error: ", m),
        };
        let mut s = String::from_str(prefix);
        s.append(message.as_str());
        s
    }

    /// The HTTP status of the response that reports the error: a bad request
    /// for a validation error, an internal server error otherwise.
    pub fn status_code(&self) -> (code: u16)
        ensures
            code == self.spec_status_code(),
    {
        match self {
            TypeError::ValidationError(_) => 400,
            _ => 500,
        }
    }

    /// The status and body of the server response that reports the error.
    pub fn response_parts(&self) -> (parts: (u16, String))
        ensures
            parts.0 == self.spec_status_code(),
            parts.1@ == self.display_text(),
    {
        (self.status_code(), self.to_string())
    }

    /// The error for a failed read or write, given the failure's message.
    pub fn from_io_error_text(text: &str) -> (e: TypeError)
        ensures
            e is InputOutputError,
            e.message_of() == "IO Error: "@ + text@,
    {
        let mut m = String::from_str("IO Error: ");
        m.append(text);
        TypeError::InputOutputError(m)
    }

    /// The error for a text that is no URL, given the parser's message.
    pub fn from_url_parse_error_text(text: &str) -> (e: TypeError)
        ensures
            e is ValidationError,
            e.message_of() == "Error parsing URL: "@ + text@,
    {
        let mut m = String::from_str("Error parsing URL: ");
        m.append(text);
        TypeError::ValidationError(m)
    }

    /// The error for a failed HTTP client operation: a validation error when
    /// building the request failed, a conversion error when a body could not
    /// be read or decoded, an input / output error otherwise. The message is
    /// the client error's own.
    pub fn from_http_error(facts: &HttpErrorFacts) -> (e: TypeError)
        ensures
            e.message_of() == facts.message@,
            facts.is_builder ==> e is ValidationError,
            !facts.is_builder && (facts.is_body || facts.is_decode) ==> e is ConversionError,
            !facts.is_builder && !facts.is_body && !facts.is_decode ==> e is InputOutputError,
    {
        let m = facts.message.clone();
        if facts.is_builder {
            TypeError::ValidationError(m)
        } else if facts.is_body || facts.is_decode {
            TypeError::ConversionError(m)
        } else {
            TypeError::InputOutputError(m)
        }
    }
}

/// The items joined by the delimiter, or "NONE" where there are none.
pub open spec fn items_text(items: Seq<Seq<char>>, delimiter: Seq<char>) -> Seq<char> {
    if items.len() == 0 {
        "NONE"@
    } else {
        join(items, delimiter)
    }
}

/// Convert a list of displayed items to a line-per-item displayable version:
/// "NONE" for no items, else the items with the delimiter between each two.
pub fn vec_to_string(items: &[&str], delimiter: &str) -> (s: String)
    ensures
        s@ == items_text(items@.map_values(|i: &str| i@), delimiter@),
{
    let ghost texts = items@.map_values(|i: &str| i@);
    if items.len() == 0 {
        return String::from_str("NONE");
    }
    let mut s = String::from_str(items[0]);
    assert(texts.take(1) =~= seq![texts[0]]);
    let mut i: usize = 1;
    while i < items.len()
        invariant
            1 <= i <= items.len(),
            texts == items@.map_values(|i: &str| i@),
            s@ == join(texts.take(i as int), delimiter@),
        decreases items.len() - i,
    {
        s.append(delimiter);
        s.append(items[i]);
        assert(texts.take(i + 1).drop_last() =~= texts.take(i as int));
        i = i + 1;
    }
    assert(texts.take(items.len() as int) =~= texts);
    s
}

/// Rendering the items of two non-empty lists one after the other gives the
/// rendering of the first list, the delimiter, then the rendering of the
/// second.
pub proof fn law_items_text_concatenates(first: Seq<Seq<char>>, second: Seq<Seq<char>>, delimiter: Seq<char>)
    requires
        first.len() > 0,
        second.len() > 0,
    ensures
        items_text(first + second, delimiter) == items_text(first, delimiter) + delimiter + items_text(second, delimiter),
    decreases second.len(),
{
    let both = first + second;
    assert(both.drop_last() =~= first + second.drop_last());
    assert(both.last() == second.last());
    if second.len() == 1 {
        assert(both.drop_last() =~= first);
        assert(join(second, delimiter) == second[0]);
    } else {
        law_items_text_concatenates(first, second.drop_last(), delimiter);
        let head = join(first, delimiter);
        let rest = join(second.drop_last(), delimiter);
        assert(join(both, delimiter) == (head + delimiter + rest) + delimiter + second.last());
        assert(join(second, delimiter) == rest + delimiter + second.last());
        assert((head + delimiter + rest) + delimiter + second.last()
            =~= head + delimiter + (rest + delimiter + second.last()));
    }
}

/// The "Caused by" lines that follow an error's own message, one per source.
pub open spec fn caused_by_lines(sources: Seq<Seq<char>>) -> Seq<char>
    decreases sources.len(),
{
    if sources.len() == 0 {
        Seq::empty()
    } else {
        caused_by_lines(sources.drop_last()) + "\n\tCaused by: "@ + sources.last()
    }
}

/// Get the cause of an error: its message, then on a line of its own the
/// message of each error in its chain of sources, nearest first.
pub fn error_root_cause(error_message: &str, source_messages: &[String]) -> (s: String)
    ensures
        s@ == error_message@ + caused_by_lines(source_messages@.map_values(|m: String| m@)),
{
    let ghost texts = source_messages@.map_values(|m: String| m@);
    let mut s = String::from_str(error_message);
    let mut i: usize = 0;
    assert(texts.take(0) =~= Seq::<Seq<char>>::empty());
    while i < source_messages.len()
        invariant
            i <= source_messages.len(),
            texts == source_messages@.map_values(|m: String| m@),
            s@ == error_message@ + caused_by_lines(texts.take(i as int)),
        decreases source_messages.len() - i,
    {
        s.append("\n\tCaused by: ");
        s.append(source_messages[i].as_str());
        assert(texts.take(i + 1).drop_last() =~= texts.take(i as int));
        i = i + 1;
    }
    assert(texts.take(source_messages.len() as int) =~= texts);
    s
}


// *** ID type ***

/// An ASCII hexadecimal digit in lower case.
pub open spec fn is_lower_hex_digit(c: char) -> bool {
    ('0' <= c && c <= '9') || ('a' <= c && c <= 'f')
}

/// The hyphenated lower-case text of a random (version 4, RFC 4122 variant)
/// UUID: 36 characters, hyphens at 8, 13, 18 and 23, lower-case hex digits
/// elsewhere, the version digit '4' at 14 and a variant digit of 8, 9, a or b
/// at 19.
pub open spec fn is_hyphenated_v4_uuid(s: Seq<char>) -> bool {
    &&& s.len() == 36
    &&& forall|i: int| 0 <= i < 36 ==> (
        if i == 8 || i == 13 || i == 18 || i == 23 { s[i] == '-' } else { is_lower_hex_digit(#[trigger] s[i]) })
    &&& s[14] == '4'
    &&& (s[19] == '8' || s[19] == '9' || s[19] == 'a' || s[19] == 'b')
}

/// The number of bytes of the UTF-8 encoding of a text.
pub open spec fn byte_length(s: Seq<char>) -> nat {
    encode_utf8(s).len()
}

/// `uuid::Uuid::new_v4` followed by `hyphenated().encode_lower`: a fresh
/// random UUID in its hyphenated lower-case form. Claimed: the text has the
/// shape `is_hyphenated_v4_uuid` describes (uuid's `new_v4` masks in the
/// version and variant bits, and `format_hyphenated` writes 36 characters with
/// hyphens at 8, 13, 18 and 23). Which UUID comes out is left open: it is
/// random.
#[verifier::external_body]
fn new_v4_hyphenated_lower() -> (s: String)
    ensures
        is_hyphenated_v4_uuid(s@),
{
    let mut buffer = [0u8; uuid::fmt::Hyphenated::LENGTH];
    String::from(uuid::Uuid::new_v4().hyphenated().encode_lower(&mut buffer))
}

/// A text that a call of the UUID generator `new_v4_hyphenated_lower` gave:
/// an identifier drawn afresh, not one made up.
pub closed spec fn is_generated_uuid_text(text: Seq<char>) -> bool {
    exists|generated: String| call_ensures(new_v4_hyphenated_lower, (), generated) && #[trigger] generated@ == text
}

/// RequestId wraps a UUIDv4 in hyphenated String form.
#[derive(Debug, Clone, Hash, PartialEq, Eq, PartialOrd, Ord)]
pub struct RequestId(String);

impl View for RequestId {
    type V = Seq<char>;

    closed spec fn view(&self) -> Seq<char> {
        self.0@
    }
}

impl RequestId {
    /// The largest number of bytes an identifier may have: the length of a
    /// hyphenated UUID.
    pub const MAX_LENGTH: usize = 36;

    /// The message of the error that refuses an identifier text as too long.
    pub open spec fn too_long_message(string: Seq<char>) -> Seq<char> {
        "provided value "@ + string + " exceeds max length "@ + decimal(36)
    }

    /// A fresh identifier: the hyphenated form of a random UUID.
    pub fn new() -> (id: Self)
        ensures
            is_hyphenated_v4_uuid(id@),
            is_generated_uuid_text(id@),
    {
        let generate = new_v4_hyphenated_lower;
        let text = generate();
        assert(call_ensures(new_v4_hyphenated_lower, (), text));
        RequestId(text)
    }

    /// An identifier with the given text, refused with a validation error
    /// when the text has more than `MAX_LENGTH` bytes.
    pub fn from_string(string: String) -> (r: Result<Self, TypeError>)
        requires
            byte_length(string@) <= usize::MAX,
        ensures
            r is Ok <==> byte_length(string@) <= Self::MAX_LENGTH,
            r matches Ok(id) ==> id@ == string@,
            r matches Err(e) ==> e is ValidationError && e.message_of() == Self::too_long_message(string@),
    {
        if string.as_str().len() > Self::MAX_LENGTH {
            let mut message = String::from_str("provided value ");
            message.append(string.as_str());
            message.append(" exceeds max length ");
            push_decimal(&mut message, Self::MAX_LENGTH as u64);
            return Err(TypeError::ValidationError(message));
        }
        Ok(RequestId(string))
    }

    /// The identifier a serialised identifier reads back as: its text, taken
    /// without the length check, as deserialising an identifier takes it.
    pub fn from_serialized(string: String) -> (id: Self)
        ensures
            id@ == string@,
    {
        RequestId(string)
    }

    /// The identifier's text.
    pub fn value(&self) -> (s: &str)
        ensures
            s@ == self@,
    {
        self.0.as_str()
    }

    /// The text the identifier is displayed as: its own text.
    pub fn to_string(&self) -> (s: String)
        ensures
            s@ == self@,
    {
        self.0.clone()
    }

    /// The text the identifier is shown as when debugging.
    pub fn debug_string(&self) -> (s: String)
        ensures
            s@ == "RequestId: "@ + self@,
    {
        let mut s = String::from_str("RequestId: ");
        s.append(self.0.as_str());
        s
    }
}

impl Default for RequestId {
    /// A fresh identifier, as `new` gives it.
    fn default() -> (id: Self)
        ensures
            is_hyphenated_v4_uuid(id@),
            is_generated_uuid_text(id@),
    {
        RequestId::new()
    }
}

/// Text of the shape of a hyphenated UUID is ASCII and so has as many bytes
/// as characters.
pub proof fn lemma_uuid_text_byte_length(s: Seq<char>)
    requires
        is_hyphenated_v4_uuid(s),
    ensures
        byte_length(s) == 36,
{
    assert(is_ascii_chars(s)) by {
        assert forall|i: int| 0 <= i < s.len() implies '\0' <= #[trigger] s[i] <= '\u{7f}' by {
            if !(i == 8 || i == 13 || i == 18 || i == 23) {
                assert(is_lower_hex_digit(s[i]));
            }
        }
    }
    is_ascii_chars_encode_utf8(s);
}

/// Every fresh identifier fits the length limit, so `from_string` accepts its
/// text and gives back an identifier of the same text.
pub proof fn law_fresh_identifier_is_accepted(id: RequestId)
    requires
        is_hyphenated_v4_uuid(id@),
    ensures
        byte_length(id@) <= RequestId::MAX_LENGTH,
{
    lemma_uuid_text_byte_length(id@);
}


// *** Timestamp type ***

/// Whether chrono's `DateTime::<Utc>::from_timestamp` accepts the number of
/// non-leap seconds since the UNIX epoch and the nanoseconds past that second:
/// the day lies from -262143-01-01 through 262142-12-31 (chrono's
/// `NaiveDate::MIN` and `MAX`), and the nanoseconds are below a billion, or
/// below two billion in the last second of a minute (a leap second).
pub open spec fn chrono_accepts_timestamp(seconds: i64, nanoseconds: u32) -> bool {
    &&& -8_334_601_228_800 <= seconds <= 8_210_266_876_799
    &&& (nanoseconds < 1_000_000_000 || (nanoseconds < 2_000_000_000 && seconds % 60 == 59))
}

/// What chrono's `str::parse::<DateTime<Utc>>` gives for a text: the instant
/// as seconds and nanoseconds since the UNIX epoch, or its error's message.
pub uninterp spec fn chrono_parse_utc(text: Seq<char>) -> Result<(i64, u32), Seq<char>>;

/// What chrono's `DateTime::format(..).to_string()` gives for the instant of
/// the given seconds and nanoseconds since the UNIX epoch, in UTC.
pub uninterp spec fn chrono_format_utc(seconds: i64, nanoseconds: u32, format: Seq<char>) -> Seq<char>;

/// `std::time::SystemTime::now().duration_since(UNIX_EPOCH)`, the duration
/// read as whole seconds and the nanoseconds past them: `Ok` where the clock
/// is at or after the UNIX epoch, `Err` with how far before the epoch it is
/// otherwise. Claimed, as `Duration::subsec_nanos` documents: the
/// nanoseconds are below a billion. Which reading comes out is the clock's.
#[verifier::external_body]
fn system_clock_reading() -> (reading: Result<(u64, u32), (u64, u32)>)
    ensures
        clock_reading_is_valid(reading),
{
    match std::time::SystemTime::now().duration_since(std::time::UNIX_EPOCH) {
        Ok(after) => Ok((after.as_secs(), after.subsec_nanos())),
        Err(before) => Err((before.duration().as_secs(), before.duration().subsec_nanos())),
    }
}

/// A reading of the system clock against the UNIX epoch: how far after it
/// (`Ok`) or before it (`Err`), as whole seconds and the nanoseconds past
/// them; the nanoseconds are below a billion.
pub open spec fn clock_reading_is_valid(reading: Result<(u64, u32), (u64, u32)>) -> bool {
    match reading {
        Ok(after) => after.1 < 1_000_000_000,
        Err(before) => before.1 < 1_000_000_000,
    }
}

/// The instant of a clock reading as seconds since the UNIX epoch (negative
/// before it) and the nanoseconds past that second.
pub open spec fn clock_reading_instant(reading: Result<(u64, u32), (u64, u32)>) -> (int, int) {
    match reading {
        Ok(after) => (after.0 as int, after.1 as int),
        Err(before) => if before.1 == 0 {
            (-(before.0 as int), 0)
        } else {
            (-(before.0 as int) - 1, 1_000_000_000 - before.1)
        },
    }
}

/// Whether the instant of a clock reading is one a timestamp can hold: its
/// seconds fit an `i64` and chrono can represent it.
pub open spec fn clock_reading_fits(reading: Result<(u64, u32), (u64, u32)>) -> bool {
    let instant = clock_reading_instant(reading);
    &&& i64::MIN <= instant.0 <= i64::MAX
    &&& chrono_accepts_timestamp(instant.0 as i64, instant.1 as u32)
}

/// The seconds and nanoseconds of the timestamp taken for a clock reading:
/// its instant where a timestamp can hold it, else the UNIX epoch.
pub open spec fn clock_timestamp(reading: Result<(u64, u32), (u64, u32)>) -> (int, int) {
    if clock_reading_fits(reading) {
        clock_reading_instant(reading)
    } else {
        (0, 0)
    }
}

/// `chrono::DateTime::<Utc>::from_timestamp(seconds, nanoseconds).is_some()`.
/// Claimed, as its source shows (`NaiveDate::from_num_days_from_ce_opt` and
/// `NaiveTime::from_num_seconds_from_midnight_opt`): the answer is
/// `chrono_accepts_timestamp` of the arguments.
#[verifier::external_body]
fn utc_accepts_timestamp(seconds: i64, nanoseconds: u32) -> (accepted: bool)
    ensures
        accepted == chrono_accepts_timestamp(seconds, nanoseconds),
{
    chrono::DateTime::<chrono::Utc>::from_timestamp(seconds, nanoseconds).is_some()
}

/// `chrono::DateTime::<Utc>::from_timestamp_micros`, read back as seconds and
/// nanoseconds. Claimed, as its source shows: it is `from_timestamp` of the
/// Euclidean quotient of the microseconds by a million and a thousand times
/// the remainder.
#[verifier::external_body]
fn utc_from_timestamp_micros(microseconds: i64) -> (instant: Option<(i64, u32)>)
    ensures
        instant is Some <==> chrono_accepts_timestamp(
            (microseconds as int / 1_000_000) as i64,
            ((microseconds as int % 1_000_000) * 1000) as u32,
        ),
        instant is Some ==> instant->Some_0.0 == microseconds as int / 1_000_000,
        instant is Some ==> instant->Some_0.1 == (microseconds as int % 1_000_000) * 1000,
{
    chrono::DateTime::<chrono::Utc>::from_timestamp_micros(microseconds)
        .map(|datetime| (datetime.timestamp(), datetime.timestamp_subsec_nanos()))
}

/// `str::parse::<chrono::DateTime<Utc>>`, the instant read back as seconds and
/// nanoseconds, the error as its message. Claimed: the result is
/// `chrono_parse_utc` of the text, and a parsed instant is one that
/// `from_timestamp` accepts (chrono documents that round trip).
#[verifier::external_body]
fn utc_parse(text: &str) -> (parsed: Result<(i64, u32), String>)
    ensures
        parsed is Ok ==> chrono_parse_utc(text@) == Ok::<(i64, u32), Seq<char>>(parsed->Ok_0),
        parsed is Ok ==> chrono_accepts_timestamp(parsed->Ok_0.0, parsed->Ok_0.1),
        parsed is Err ==> chrono_parse_utc(text@) == Err::<(i64, u32), Seq<char>>(parsed->Err_0@),
{
    match text.parse::<chrono::DateTime<chrono::Utc>>() {
        Ok(datetime) => Ok((datetime.timestamp(), datetime.timestamp_subsec_nanos())),
        Err(error) => Err(error.to_string()),
    }
}

/// `chrono::DateTime::<Utc>::from_timestamp(..).unwrap().format(format).to_string()`
/// for one of the two formats the library uses. Claimed: the text is
/// `chrono_format_utc` of the arguments; and, as chrono's formatting and its
/// relaxed RFC 3339 parser show, the text of the full format parses back to
/// the same instant where its year has four digits (0000 to 9999) and it is
/// no leap second: `%F` writes such a year as four digits, `%.f` the
/// nanoseconds exactly, `%:z` the offset "+00:00". The instant must be one
/// that `from_timestamp` accepts, else the unwrap would panic.
#[verifier::external_body]
fn utc_format(seconds: i64, nanoseconds: u32, format: &str) -> (text: String)
    requires
        chrono_accepts_timestamp(seconds, nanoseconds),
        format@ == "%FT%T%.f%:z"@ || format@ == "%FT%T%.3f%:z"@,
    ensures
        text@ == chrono_format_utc(seconds, nanoseconds, format@),
        (format@ == "%FT%T%.f%:z"@ && is_four_digit_year_instant(seconds, nanoseconds)) ==> (
            chrono_parse_utc(text@) is Ok && chrono_parse_utc(text@)->Ok_0 == (seconds, nanoseconds)),
{
    chrono::DateTime::<chrono::Utc>::from_timestamp(seconds, nanoseconds).unwrap().format(format).to_string()
}

/// An instant from 0000-01-01T00:00:00Z through 9999-12-31T23:59:59Z that is
/// no leap second.
pub open spec fn is_four_digit_year_instant(seconds: i64, nanoseconds: u32) -> bool {
    &&& -62_167_219_200 <= seconds <= 253_402_300_799
    &&& nanoseconds < 1_000_000_000
}

/// Timestamp to show when API messages were created: an instant in UTC, held
/// as the number of non-leap seconds since the UNIX epoch and the
/// nanoseconds past that second (above a billion only in a leap second).
/// Timestamps order as the instants do.
#[derive(Debug, Clone, Copy, PartialEq, Eq, PartialOrd, Ord, Hash)]
pub struct Timestamp {
    seconds: i64,
    nanoseconds: u32,
}

/// A timestamp of the shape the system clock gives: that of some valid clock
/// reading (see `clock_timestamp`).
pub open spec fn is_clock_time(t: Timestamp) -> bool {
    exists|reading: Result<(u64, u32), (u64, u32)>|
        clock_reading_is_valid(reading) && #[trigger] clock_timestamp(reading) == (
        t.spec_seconds() as int, t.spec_nanoseconds() as int)
}

/// A timestamp read off the system clock: the timestamp of a reading that
/// a call of `system_clock_reading` gave, not one made up or taken from
/// elsewhere.
pub closed spec fn is_read_from_clock(t: Timestamp) -> bool {
    exists|reading: Result<(u64, u32), (u64, u32)>|
        call_ensures(system_clock_reading, (), reading) && #[trigger] clock_timestamp(reading) == (
        t.spec_seconds() as int, t.spec_nanoseconds() as int)
}

/// A timestamp read off the system clock has the shape of a clock time.
pub proof fn lemma_read_from_clock_is_clock_time(t: Timestamp)
    requires
        is_read_from_clock(t),
    ensures
        is_clock_time(t),
{
    let reading = choose|reading: Result<(u64, u32), (u64, u32)>|
        call_ensures(system_clock_reading, (), reading) && #[trigger] clock_timestamp(reading) == (
        t.spec_seconds() as int, t.spec_nanoseconds() as int);
    assert(clock_reading_is_valid(reading));
}

impl Timestamp {
    /// The format of `value`: RFC 3339 with as many fraction digits as needed.
    pub const FORMAT: &'static str = "%FT%T%.f%:z";

    /// The format a timestamp is displayed in, with milliseconds.
    pub const DISPLAY_FORMAT: &'static str = "%FT%T%.3f%:z";

    #[verifier::type_invariant]
    spec fn is_instant(self) -> bool {
        chrono_accepts_timestamp(self.seconds, self.nanoseconds)
    }

    /// Seconds since the UNIX epoch, leap seconds not counted.
    pub closed spec fn spec_seconds(self) -> i64 {
        self.seconds
    }

    /// Nanoseconds past the second.
    pub closed spec fn spec_nanoseconds(self) -> u32 {
        self.nanoseconds
    }

    /// The message of the error that refuses a text as no timestamp.
    pub open spec fn parse_error_message(string: Seq<char>, error: Seq<char>) -> Seq<char> {
        "Error parsing ISO 8601 timestamp from provided string "@ + string + ": "@ + error
    }

    /// The message of the error that refuses microseconds out of range.
    pub open spec fn micros_error_message(microseconds: i64) -> Seq<char> {
        "Invalid ISO 8601 timestamp microseconds value "@ + signed_decimal(microseconds as int)
            + "; must be a valid signed 64-bit number"@
    }

    /// The current time: the instant the system clock reads, also where the
    /// clock is set before 1970; the UNIX epoch only where the clock reads an
    /// instant chrono cannot represent.
    pub fn now() -> (t: Self)
        ensures
            is_clock_time(t),
            is_read_from_clock(t),
    {
        let read_clock = system_clock_reading;
        let reading = read_clock();
        let t = match Self::from_clock_reading(reading) {
            Some(t) => t,
            None => Self::unix_epoch(),
        };
        assert(clock_timestamp(reading) == (t.spec_seconds() as int, t.spec_nanoseconds() as int));
        assert(call_ensures(system_clock_reading, (), reading));
        t
    }

    /// The UNIX epoch, 1970-01-01T00:00:00Z.
    pub fn unix_epoch() -> (t: Self)
        ensures
            t.spec_seconds() == 0,
            t.spec_nanoseconds() == 0,
    {
        Timestamp { seconds: 0, nanoseconds: 0 }
    }

    /// The timestamp of a reading of the system clock (see
    /// `clock_reading_instant`); `None` where a timestamp cannot hold that
    /// instant.
    pub fn from_clock_reading(reading: Result<(u64, u32), (u64, u32)>) -> (t: Option<Self>)
        requires
            clock_reading_is_valid(reading),
        ensures
            t is Some <==> clock_reading_fits(reading),
            t matches Some(t) ==> (t.spec_seconds() as int, t.spec_nanoseconds() as int)
                == clock_reading_instant(reading),
    {
        let (seconds, nanoseconds): (i64, u32) = match reading {
            Ok((after_seconds, after_nanoseconds)) => {
                if after_seconds > 9_223_372_036_854_775_807u64 {
                    return None;
                }
                (after_seconds as i64, after_nanoseconds)
            },
            Err((before_seconds, before_nanoseconds)) => {
                if before_nanoseconds == 0 {
                    if before_seconds > 9_223_372_036_854_775_808u64 {
                        return None;
                    } else if before_seconds == 9_223_372_036_854_775_808u64 {
                        (i64::MIN, 0)
                    } else {
                        (-(before_seconds as i64), 0)
                    }
                } else {
                    if before_seconds > 9_223_372_036_854_775_807u64 {
                        return None;
                    }
                    (-(before_seconds as i64) - 1, 1_000_000_000 - before_nanoseconds)
                }
            },
        };
        if utc_accepts_timestamp(seconds, nanoseconds) {
            Some(Timestamp { seconds, nanoseconds })
        } else {
            None
        }
    }

    /// The timestamp of the given seconds and nanoseconds since the UNIX
    /// epoch, where chrono can represent that instant.
    pub fn from_parts(seconds: i64, nanoseconds: u32) -> (t: Option<Self>)
        ensures
            t is Some <==> chrono_accepts_timestamp(seconds, nanoseconds),
            t matches Some(t) ==> t.spec_seconds() == seconds && t.spec_nanoseconds() == nanoseconds,
    {
        if utc_accepts_timestamp(seconds, nanoseconds) {
            Some(Timestamp { seconds, nanoseconds })
        } else {
            None
        }
    }

    /// The timestamp a text in (a relaxed form of) RFC 3339 denotes; a
    /// validation error where chrono cannot parse it.
    pub fn parse_from_str(string: &str) -> (r: Result<Self, TypeError>)
        ensures
            r is Ok <==> chrono_parse_utc(string@) is Ok,
            r matches Ok(t) ==> chrono_parse_utc(string@) == Ok::<(i64, u32), Seq<char>>(
                (t.spec_seconds(), t.spec_nanoseconds())),
            r matches Err(e) ==> e is ValidationError
                && e.message_of() == Self::parse_error_message(string@, chrono_parse_utc(string@)->Err_0),
    {
        match utc_parse(string) {
            Ok((seconds, nanoseconds)) => Ok(Timestamp { seconds, nanoseconds }),
            Err(error) => {
                let mut message = String::from_str("Error parsing ISO 8601 timestamp from provided string ");
                message.append(string);
                message.append(": ");
                message.append(error.as_str());
                Err(TypeError::ValidationError(message))
            }
        }
    }

    /// The timestamp the given number of non-leap microseconds after the UNIX
    /// epoch; a validation error where that instant is out of chrono's range.
    pub fn from_microseconds(microseconds: i64) -> (r: Result<Self, TypeError>)
        ensures
            r is Ok <==> chrono_accepts_timestamp(
                (microseconds as int / 1_000_000) as i64,
                ((microseconds as int % 1_000_000) * 1000) as u32,
            ),
            r matches Ok(t) ==> t.spec_seconds() == microseconds as int / 1_000_000
                && t.spec_nanoseconds() == (microseconds as int % 1_000_000) * 1000,
            r matches Err(e) ==> e is ValidationError
                && e.message_of() == Self::micros_error_message(microseconds),
    {
        match utc_from_timestamp_micros(microseconds) {
            Some((seconds, nanoseconds)) => Ok(Timestamp { seconds, nanoseconds }),
            None => {
                let mut message = String::from_str("Invalid ISO 8601 timestamp microseconds value ");
                push_signed_decimal(&mut message, microseconds);
                message.append("; must be a valid signed 64-bit number");
                Err(TypeError::ValidationError(message))
            }
        }
    }

    /// The timestamp in RFC 3339 form, in UTC, with as many fraction digits as needed.
    /// In the years 0000 to 9999, outside leap seconds, the text parses back
    /// (`parse_from_str`) to this very timestamp.
    pub fn value(&self) -> (s: String)
        ensures
            s@ == chrono_format_utc(self.spec_seconds(), self.spec_nanoseconds(), Self::FORMAT@),
            is_four_digit_year_instant(self.spec_seconds(), self.spec_nanoseconds()) ==> (
                chrono_parse_utc(s@) is Ok
                && chrono_parse_utc(s@)->Ok_0 == (self.spec_seconds(), self.spec_nanoseconds())),
    {
        proof { use_type_invariant(self); }
        utc_format(self.seconds, self.nanoseconds, Self::FORMAT)
    }

    /// The timestamp in RFC 3339 form, in UTC, with milliseconds.
    pub fn display_value_utc(&self) -> (s: String)
        ensures
            s@ == chrono_format_utc(self.spec_seconds(), self.spec_nanoseconds(), Self::DISPLAY_FORMAT@),
    {
        proof { use_type_invariant(self); }
        utc_format(self.seconds, self.nanoseconds, Self::DISPLAY_FORMAT)
    }

    /// Seconds since the UNIX epoch, leap seconds not counted.
    pub fn seconds(&self) -> (s: i64)
        ensures
            s == self.spec_seconds(),
    {
        self.seconds
    }

    /// Nanoseconds past the second.
    pub fn nanoseconds(&self) -> (n: u32)
        ensures
            n == self.spec_nanoseconds(),
    {
        self.nanoseconds
    }
}

impl Default for Timestamp {
    /// The current time, as `now` gives it.
    fn default() -> (t: Self)
        ensures
            is_clock_time(t),
            is_read_from_clock(t),
    {
        Timestamp::now()
    }
}

/// A timestamp made from microseconds is that many microseconds after the
/// UNIX epoch: its seconds times a million plus its whole microseconds give
/// the number back.
pub proof fn law_microseconds_round_trip(microseconds: i64, t: Timestamp)
    requires
        t.spec_seconds() == microseconds as int / 1_000_000,
        t.spec_nanoseconds() == (microseconds as int % 1_000_000) * 1000,
    ensures
        t.spec_seconds() * 1_000_000 + t.spec_nanoseconds() / 1000 == microseconds,
{
}


// *** Shared utility functions ***

/// What looking up an environment variable found: its value, or that it is
/// not set, or that its value is no valid Unicode. Where the lookup failed,
/// the text is the failure's message.
#[derive(Debug, Clone, PartialEq, Eq)]
pub enum EnvValue {
    Present(String),
    NotPresent(String),
    NotUnicode(String),
}

/// A lookup that found a non-empty value.
pub open spec fn env_value_usable(v: EnvValue) -> bool {
    v matches EnvValue::Present(text) && text@.len() > 0
}

/// The host's name from the `HOSTNAME` and `COMPUTERNAME` environment
/// variables: `HOSTNAME` where it holds a name; else, where `HOSTNAME` is
/// unset or empty, `COMPUTERNAME` where it holds a name; else "localhost".
/// An empty value names no host and passes on to the next source.
pub open spec fn spec_hostname(hostname_var: EnvValue, computername_var: EnvValue) -> Seq<char> {
    if env_value_usable(hostname_var) {
        hostname_var->Present_0@
    } else if !(hostname_var is NotUnicode) && env_value_usable(computername_var) {
        computername_var->Present_0@
    } else {
        "localhost"@
    }
}

/// Choose the host's name from the lookups of the `HOSTNAME` and
/// `COMPUTERNAME` environment variables; it is never empty.
pub fn hostname_from_environment(hostname_var: EnvValue, computername_var: EnvValue) -> (name: String)
    ensures
        name@ == spec_hostname(hostname_var, computername_var),
        name@.len() > 0,
        (hostname_var is Present && hostname_var->Present_0@.len() > 0) ==> name@ == hostname_var->Present_0@,
        (hostname_var is NotPresent || (hostname_var is Present && hostname_var->Present_0@.len() == 0))
            ==> (computername_var is Present && computername_var->Present_0@.len() > 0
            ==> name@ == computername_var->Present_0@),
        (hostname_var is NotUnicode || (!(hostname_var is Present && hostname_var->Present_0@.len() > 0)
            && !(computername_var is Present && computername_var->Present_0@.len() > 0)))
            ==> name@ == "localhost"@,
{
    proof { reveal_strlit("localhost"); }
    let hostname_unicode = !matches!(hostname_var, EnvValue::NotUnicode(_));
    if let EnvValue::Present(hostname) = hostname_var {
        if hostname.as_str().unicode_len() > 0 {
            return hostname;
        }
    }
    if hostname_unicode {
        if let EnvValue::Present(computername) = computername_var {
            if computername.as_str().unicode_len() > 0 {
                return computername;
            }
        }
    }
    String::from_str("localhost")
}

/// An ASCII letter or digit.
pub open spec fn is_ascii_alphanumeric(c: char) -> bool {
    ('0' <= c && c <= '9') || ('a' <= c && c <= 'z') || ('A' <= c && c <= 'Z')
}

/// One sample of `rand::distr::Alphanumeric` from `rand::rng()`, as a text of
/// one character. Claimed, as the distribution's documentation and source
/// show: the character is an ASCII letter or digit. Which one is random.
#[verifier::external_body]
fn random_alphanumeric() -> (c: String)
    ensures
        c@.len() == 1,
        is_ascii_alphanumeric(c@[0]),
{
    String::from(char::from(rand::rng().sample(rand::distr::Alphanumeric)))
}

/// `rand::rng().random_range(low..high)`. Claimed: the number lies in
/// `low..high`; the range must not be empty, else rand panics. Which number
/// comes out is random.
#[verifier::external_body]
fn random_in_range(low: u8, high: u8) -> (n: u8)
    requires
        low < high,
    ensures
        low <= n < high,
{
    rand::rng().random_range(low..high)
}

/// A character that a call of `random_alphanumeric` drew.
pub closed spec fn is_drawn_alphanumeric(c: char) -> bool {
    exists|drawn: String| call_ensures(random_alphanumeric, (), drawn) && #[trigger] drawn@[0] == c
}

/// A delay that a call of `random_in_range(1, max)` drew.
pub closed spec fn is_drawn_delay(max_delay_in_seconds: u8, delay: u8) -> bool {
    call_ensures(random_in_range, (1u8, max_delay_in_seconds), delay)
}

/// Generate a String of the given length with pseudorandom content: ASCII
/// letters and digits, each drawn afresh.
pub fn generate_random_string(len: usize) -> (s: String)
    ensures
        s@.len() == len,
        forall|i: int| 0 <= i < len ==> is_ascii_alphanumeric(#[trigger] s@[i]),
        forall|i: int| 0 <= i < len ==> is_drawn_alphanumeric(#[trigger] s@[i]),
{
    let mut s = String::new();
    let mut i: usize = 0;
    while i < len
        invariant
            i <= len,
            s@.len() == i,
            forall|j: int| 0 <= j < i ==> is_ascii_alphanumeric(#[trigger] s@[j]),
            forall|j: int| 0 <= j < i ==> is_drawn_alphanumeric(#[trigger] s@[j]),
        decreases len - i,
    {
        let draw = random_alphanumeric;
        let c = draw();
        assert(call_ensures(random_alphanumeric, (), c));
        let ghost before = s@;
        s.append(c.as_str());
        assert(s@ == before + c@);
        assert(s@[i as int] == c@[0]);
        i = i + 1;
    }
    s
}

/// The number of seconds to wait before starting: a random whole number from
/// one up to, but not including, `max_delay_in_seconds`; no wait at all where
/// the maximum leaves no such number (a maximum of 0 or 1).
pub fn random_delay_seconds(max_delay_in_seconds: u8) -> (delay: u8)
    ensures
        max_delay_in_seconds <= 1 ==> delay == 0,
        max_delay_in_seconds > 1 ==> 1 <= delay < max_delay_in_seconds,
        max_delay_in_seconds > 1 ==> is_drawn_delay(max_delay_in_seconds, delay),
{
    if max_delay_in_seconds <= 1 {
        0
    } else {
        let draw = random_in_range;
        let delay = draw(1, max_delay_in_seconds);
        assert(call_ensures(random_in_range, (1u8, max_delay_in_seconds), delay));
        delay
    }
}

/// Every identifier `RequestId::new` gives was drawn by the UUID generator
/// in that call; none is made up.
pub proof fn law_new_request_id_is_generated(id: RequestId)
    requires
        call_ensures(RequestId::new, (), id),
    ensures
        is_generated_uuid_text(id@),
        is_hyphenated_v4_uuid(id@),
{
}

/// A default identifier is a fresh one, drawn by the UUID generator as
/// `RequestId::new` draws it; no fixed text.
pub proof fn law_default_request_id_is_generated(id: RequestId)
    requires
        call_ensures(RequestId::default, (), id),
    ensures
        is_generated_uuid_text(id@),
        is_hyphenated_v4_uuid(id@),
{
}

/// The signed distance of a clock reading from the UNIX epoch, in
/// nanoseconds: positive after the epoch, negative before it.
pub open spec fn clock_reading_offset(reading: Result<(u64, u32), (u64, u32)>) -> int {
    match reading {
        Ok(after) => after.0 * 1_000_000_000 + after.1,
        Err(before) => -(before.0 * 1_000_000_000 + before.1),
    }
}

/// The timestamp taken for a clock reading that a timestamp can hold is
/// exactly the reading's distance from the UNIX epoch: its seconds times a
/// billion plus its nanoseconds give that distance in nanoseconds, with the
/// nanoseconds below a billion.
pub proof fn law_clock_timestamp_is_reading_offset(reading: Result<(u64, u32), (u64, u32)>)
    requires
        clock_reading_is_valid(reading),
        clock_reading_fits(reading),
    ensures
        clock_timestamp(reading).0 * 1_000_000_000 + clock_timestamp(reading).1 == clock_reading_offset(reading),
        0 <= clock_timestamp(reading).1 < 1_000_000_000,
{
}

/// Every timestamp `Timestamp::now` gives is read off the system clock in
/// that call: it is the timestamp of the reading the clock gave, not an
/// instant made up or derived (such as the start of the day).
pub proof fn law_now_reads_the_clock(t: Timestamp)
    requires
        call_ensures(Timestamp::now, (), t),
    ensures
        is_read_from_clock(t),
        t.spec_nanoseconds() < 1_000_000_000,
{
}

/// Where `HOSTNAME` holds a non-empty name, that name is the host's name,
/// whatever `COMPUTERNAME` holds; `COMPUTERNAME` is consulted only where
/// `HOSTNAME` is unset or empty.
pub proof fn law_hostname_variable_first(hostname: String, computername_var: EnvValue, name: String)
    requires
        hostname@.len() > 0,
        call_ensures(hostname_from_environment, (EnvValue::Present(hostname), computername_var), name),
    ensures
        name@ == hostname@,
        spec_hostname(EnvValue::Present(hostname), computername_var) == hostname@,
{
}

/// Where `HOSTNAME` is unset, a non-empty `COMPUTERNAME` names the host.
pub proof fn law_hostname_computername_second(hostname_var: EnvValue, computername: String, name: String)
    requires
        hostname_var is NotPresent,
        computername@.len() > 0,
        call_ensures(hostname_from_environment, (hostname_var, EnvValue::Present(computername)), name),
    ensures
        name@ == computername@,
{
}

} // verus!
