//! Wait-time arithmetic: from a wall-clock timestamp of the home zone to the
//! time still to wait and the clock time to show.

use crate::number::{
    decimal_chars, decimal_text, is_digit, lemma_decimal_text_reads_back, two_digit_chars,
    two_digit_text,
};
use crate::text::{chars_of, string_of};
use vstd::prelude::*;

verus! {

/// The pattern of a departure timestamp, in the `time` crate's notation.
pub const TIMESTAMP_FORMAT: &'static str = "[year]-[month]-[day]T[hour]:[minute]:[second]";

/// A wall-clock reading as the logic needs it.
#[derive(Debug, Clone, Copy, PartialEq, Eq, Structural)]
pub struct LocalTimestamp {
    /// Seconds from 1970-01-01T00:00:00 on the same wall clock.
    pub wall_seconds: i64,
    /// Hour of the day on that clock.
    pub hour: u8,
    /// Minute of the hour on that clock.
    pub minute: u8,
}

impl LocalTimestamp {
    /// The clock fields are in range.
    pub open spec fn wf(self) -> bool {
        self.hour < 24 && self.minute < 60
    }
}

/// What the `time` crate reads from `text` under the format description
/// `format`: the wall-clock reading, or nothing where either is rejected.
pub uninterp spec fn parsed_timestamp(text: Seq<char>, format: Seq<char>) -> Option<LocalTimestamp>;

/// `time::PrimitiveDateTime::parse`, with the description built by
/// `time::format_description::parse_borrowed::<1>`. The result depends on the
/// two texts alone. Of a reading that comes back, the seconds are its Unix
/// timestamp when taken as UTC, and hour and minute are in `0..24` and `0..60`.
#[verifier::external_body]
fn parse_timestamp(text: &str, format: &str) -> (r: Option<LocalTimestamp>)
    ensures
        r == parsed_timestamp(text@, format@),
        r matches Some(reading) ==> reading.wf(),
{
    let description = time::format_description::parse_borrowed::<1>(format).ok()?;
    let parsed = time::PrimitiveDateTime::parse(text, &description).ok()?;
    Some(
        LocalTimestamp {
            wall_seconds: parsed.assume_utc().unix_timestamp(),
            hour: parsed.hour(),
            minute: parsed.minute(),
        },
    )
}

/// The fixed shape `YYYY-MM-DDTHH:MM:SS`: nineteen characters, digits and
/// separators each in their place.
pub open spec fn has_timestamp_shape(text: Seq<char>) -> bool {
    &&& text.len() == 19
    &&& forall|i: int| 0 <= i < 19 ==> shape_allows(i, #[trigger] text[i])
}

/// What the shape asks of the character at position `i`.
pub open spec fn shape_allows(i: int, c: char) -> bool {
    if i == 4 || i == 7 {
        c == '-'
    } else if i == 10 {
        c == 'T'
    } else if i == 13 || i == 16 {
        c == ':'
    } else {
        is_digit(c)
    }
}

/// Tests whether `text` has the fixed timestamp shape.
pub fn check_timestamp_shape(text: &Vec<char>) -> (r: bool)
    ensures
        r == has_timestamp_shape(text@),
{
    if text.len() != 19 {
        return false;
    }
    let mut i: usize = 0;
    while i < 19
        invariant
            i <= 19,
            text.len() == 19,
            forall|j: int| 0 <= j < i ==> shape_allows(j, #[trigger] text@[j]),
        decreases 19 - i,
    {
        let c = text[i];
        let allowed = if i == 4 || i == 7 {
            c == '-'
        } else if i == 10 {
            c == 'T'
        } else if i == 13 || i == 16 {
            c == ':'
        } else {
            '0' <= c && c <= '9'
        };
        if !allowed {
            assert(!shape_allows(i as int, text@[i as int]));
            return false;
        }
        i += 1;
    }
    true
}

/// The reading of a departure timestamp: `text` must have the fixed shape and
/// the `time` crate must accept it as a date and a time of day.
pub open spec fn timestamp_reading(text: Seq<char>) -> Option<LocalTimestamp> {
    if has_timestamp_shape(text) {
        parsed_timestamp(text, TIMESTAMP_FORMAT@)
    } else {
        None
    }
}

/// Reads a departure timestamp.
pub fn string_to_date(expected: &str) -> (r: Option<LocalTimestamp>)
    ensures
        r == timestamp_reading(expected@),
        r matches Some(reading) ==> reading.wf(),
{
    let chars = chars_of(expected);
    if check_timestamp_shape(&chars) {
        parse_timestamp(expected, TIMESTAMP_FORMAT)
    } else {
        None
    }
}

/// The transit system's home zone, as seconds east of UTC.
pub const HOME_UTC_OFFSET_SECONDS: i32 = 3600;

/// Seconds from `now_utc` until the moment at which a clock
/// `offset_seconds` east of UTC shows `reading`.
pub open spec fn seconds_until(reading: LocalTimestamp, now_utc: i64, offset_seconds: i32) -> int {
    reading.wall_seconds - offset_seconds - now_utc
}

/// A duration in compact form: hours and minutes from one hour on, minutes
/// from one minute on, seconds below that.
pub open spec fn human_text(seconds: nat) -> Seq<char> {
    let hours = seconds / 3600;
    let minutes = (seconds % 3600) / 60;
    if hours == 0 && minutes == 0 {
        decimal_text(seconds % 60) + "s"@
    } else if hours == 0 {
        decimal_text(minutes) + "m"@
    } else {
        decimal_text(hours) + "h "@ + decimal_text(minutes) + "m"@
    }
}

/// The wait to show for a difference of `delta` seconds: `now` for a moment
/// that has come or passed, the compact duration otherwise.
pub open spec fn wait_text(delta: int) -> Seq<char> {
    if delta <= 0 {
        "now"@
    } else {
        human_text(delta as nat)
    }
}

/// A time of day as `HH:MM`.
pub open spec fn clock_text(hour: nat, minute: nat) -> Seq<char> {
    two_digit_text(hour) + ":"@ + two_digit_text(minute)
}

/// Appends the characters of `tail` to `out`.
pub fn push_text(out: &mut Vec<char>, tail: &str)
    ensures
        final(out)@ == old(out)@ + tail@,
{
    let mut chars = chars_of(tail);
    out.append(&mut chars);
}

/// Appends the shortest numeral of `n` to `out`.
pub fn push_decimal(out: &mut Vec<char>, n: u128)
    ensures
        final(out)@ == old(out)@ + decimal_text(n as nat),
{
    let mut digits = decimal_chars(n);
    out.append(&mut digits);
}

/// Writes a duration of `seconds` in compact form.
pub fn human(seconds: u128) -> (r: String)
    ensures
        r@ == human_text(seconds as nat),
{
    let hours = seconds / 3600;
    let minutes = (seconds % 3600) / 60;
    let mut out: Vec<char> = Vec::new();
    if hours == 0 && minutes == 0 {
        push_decimal(&mut out, seconds % 60);
        push_text(&mut out, "s");
    } else if hours == 0 {
        push_decimal(&mut out, minutes);
        push_text(&mut out, "m");
    } else {
        push_decimal(&mut out, hours);
        push_text(&mut out, "h ");
        push_decimal(&mut out, minutes);
        push_text(&mut out, "m");
    }
    assert(out@ =~= human_text(seconds as nat));
    string_of(&out)
}

/// Writes the time of day of `reading` as `HH:MM`.
pub fn format_time(reading: &LocalTimestamp) -> (r: String)
    requires
        reading.wf(),
    ensures
        r@ == clock_text(reading.hour as nat, reading.minute as nat),
        r@.len() == 5,
{
    let mut out: Vec<char> = two_digit_chars(reading.hour);
    push_text(&mut out, ":");
    let mut minute = two_digit_chars(reading.minute);
    out.append(&mut minute);
    proof {
        reveal_strlit(":");
    }
    assert(out@ =~= clock_text(reading.hour as nat, reading.minute as nat));
    string_of(&out)
}

/// Writes the wait from `now_utc` until a clock `offset_seconds` east of UTC
/// shows `reading`.
pub fn wait_until(reading: &LocalTimestamp, now_utc: i64, offset_seconds: i32) -> (r: String)
    ensures
        r@ == wait_text(seconds_until(*reading, now_utc, offset_seconds)),
{
    let delta: i128 = reading.wall_seconds as i128 - offset_seconds as i128 - now_utc as i128;
    if delta <= 0 {
        "now".to_owned()
    } else {
        human(delta as u128)
    }
}

/// A wait and the clock time that goes with it.
#[derive(Debug, PartialEq, Eq)]
pub struct WaitResult {
    /// `now`, or the compact duration still to wait.
    pub wait: String,
    /// The expected time of day in the home zone, as `HH:MM`.
    pub clock: String,
}

/// A timestamp that does not follow the fixed pattern or names no real date
/// or time of day.
#[derive(Debug, PartialEq, Eq)]
pub struct TimeParseError {
    /// The text that was rejected.
    pub rejected: String,
}

/// The wait result for `reading`.
pub open spec fn is_wait_for(
    result: WaitResult,
    reading: LocalTimestamp,
    now_utc: i64,
    offset_seconds: i32,
) -> bool {
    &&& result.wait@ == wait_text(seconds_until(reading, now_utc, offset_seconds))
    &&& result.clock@ == clock_text(reading.hour as nat, reading.minute as nat)
}

/// Turns the outcome of reading `expected` into a wait result: an error
/// where nothing was read, the wait and the clock time otherwise.
pub fn wait_for(
    expected: &str,
    reading: Option<LocalTimestamp>,
    now_utc: i64,
    offset_seconds: i32,
) -> (r: Result<WaitResult, TimeParseError>)
    requires
        reading matches Some(t) ==> t.wf(),
    ensures
        reading is None <==> r is Err,
        r matches Err(error) ==> error.rejected@ == expected@,
        r matches Ok(result) ==> is_wait_for(result, reading->0, now_utc, offset_seconds),
{
    match reading {
        None => Err(TimeParseError { rejected: expected.to_owned() }),
        Some(t) => Ok(
            WaitResult { wait: wait_until(&t, now_utc, offset_seconds), clock: format_time(&t) },
        ),
    }
}

/// Computes the wait for the timestamp `expected`, taken as wall-clock time
/// `offset_seconds` east of UTC, as seen at the instant `now_utc` (seconds
/// since the Unix epoch).
pub fn compute_wait(expected: &str, now_utc: i64, offset_seconds: i32) -> (r: Result<
    WaitResult,
    TimeParseError,
>)
    ensures
        r is Ok <==> timestamp_reading(expected@) is Some,
        r matches Err(error) ==> error.rejected@ == expected@,
        r matches Ok(result) ==> is_wait_for(
            result,
            timestamp_reading(expected@)->0,
            now_utc,
            offset_seconds,
        ),
{
    wait_for(expected, string_to_date(expected), now_utc, offset_seconds)
}

/// The wait to show for `expected`: `unknown` where the timestamp cannot be
/// read, `now` or the compact duration otherwise.
pub open spec fn shown_wait(expected: Seq<char>, now_utc: i64, offset_seconds: i32) -> Seq<char> {
    match timestamp_reading(expected) {
        Some(reading) => wait_text(seconds_until(reading, now_utc, offset_seconds)),
        None => "unknown"@,
    }
}

/// The clock time to show for `expected`: `unknown` where the timestamp
/// cannot be read.
pub open spec fn shown_clock(expected: Seq<char>) -> Seq<char> {
    match timestamp_reading(expected) {
        Some(reading) => clock_text(reading.hour as nat, reading.minute as nat),
        None => "unknown"@,
    }
}

/// Writes the wait to show for the timestamp `expected`.
pub fn wait_time(expected: &str, now_utc: i64, offset_seconds: i32) -> (r: String)
    ensures
        r@ == shown_wait(expected@, now_utc, offset_seconds),
{
    match string_to_date(expected) {
        Some(reading) => wait_until(&reading, now_utc, offset_seconds),
        None => "unknown".to_owned(),
    }
}

/// Writes the clock time to show for the timestamp `expected`.
pub fn clock_time(expected: &str) -> (r: String)
    ensures
        r@ == shown_clock(expected@),
{
    match string_to_date(expected) {
        Some(reading) => format_time(&reading),
        None => "unknown".to_owned(),
    }
}

/// A moment that the home clock has reached or passed shows as `now`.
pub proof fn lemma_wait_floor(reading: LocalTimestamp, now_utc: i64, offset_seconds: i32)
    requires
        reading.wall_seconds - offset_seconds <= now_utc,
    ensures
        wait_text(seconds_until(reading, now_utc, offset_seconds)) == "now"@,
{
}

/// A wait is `now` or begins with a digit: no wait is written with a sign.
pub proof fn lemma_wait_is_unsigned(delta: int)
    ensures
        wait_text(delta) == "now"@ || (delta > 0 && wait_text(delta).len() > 0 && is_digit(
            wait_text(delta)[0],
        )),
{
    if delta > 0 {
        let seconds = delta as nat;
        lemma_decimal_text_reads_back(seconds % 60);
        lemma_decimal_text_reads_back((seconds % 3600) / 60);
        lemma_decimal_text_reads_back(seconds / 3600);
    }
}

/// The timestamp is read on the home clock: between two zones the wait
/// differs by as much as their offsets do, the eastern zone waiting less.
pub proof fn lemma_offset_shifts_wait(
    reading: LocalTimestamp,
    now_utc: i64,
    east: i32,
    west: i32,
)
    ensures
        seconds_until(reading, now_utc, west) - seconds_until(reading, now_utc, east) == east
            - west,
{
}

/// From one minute on, the seconds past the whole minute do not show.
pub proof fn lemma_human_drops_odd_seconds(seconds: nat)
    requires
        seconds >= 60,
    ensures
        human_text(seconds) == human_text((seconds - seconds % 60) as nat),
{
}

} // verus!
