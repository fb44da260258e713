//! The rows of the departure board: what is shown for each departure and
//! for each stop.

use crate::rules::{classification, classify};
use crate::model::{Departure, StopRecord, TransportMode};
use crate::number::decimal_text;
use crate::text::string_of;
use crate::wait::{clock_time, push_decimal, push_text, shown_clock, shown_wait, wait_time};
use vstd::prelude::*;

verus! {

/// What the board shows for one departure.
#[derive(Debug, PartialEq, Eq)]
pub struct DepartureRow {
    /// The wait, `now`, or `unknown`.
    pub wait: String,
    /// The clock time as `HH:MM`, or `unknown`.
    pub time: String,
    /// The line designation.
    pub line: String,
    /// The destination.
    pub destination: String,
    /// The transport mode that the line's category label falls under, if any.
    pub transport: Option<TransportMode>,
}

/// The mode to show for a departure: that of its category label, none
/// where the label is missing or falls under no mode.
pub open spec fn shown_mode(departure: Departure) -> Option<TransportMode> {
    match departure.line.transport_group {
        Some(group) => classification(group@),
        None => None,
    }
}

/// `row` is what the board shows for `departure` at `now_utc` in a zone
/// `offset_seconds` east of UTC.
pub open spec fn is_row_of(
    row: DepartureRow,
    departure: Departure,
    now_utc: i64,
    offset_seconds: i32,
) -> bool {
    &&& row.wait@ == shown_wait(departure.expected_local_time@, now_utc, offset_seconds)
    &&& row.time@ == shown_clock(departure.expected_local_time@)
    &&& row.line == departure.line.designation
    &&& row.destination == departure.destination
    &&& row.transport == shown_mode(departure)
}

/// Makes the row of one departure. A timestamp that cannot be read shows
/// as `unknown` in both time columns.
pub fn departure_row(departure: &Departure, now_utc: i64, offset_seconds: i32) -> (r: DepartureRow)
    ensures
        is_row_of(r, *departure, now_utc, offset_seconds),
{
    let transport = match &departure.line.transport_group {
        Some(group) => classify(group.as_str()),
        None => None,
    };
    DepartureRow {
        wait: wait_time(departure.expected_local_time.as_str(), now_utc, offset_seconds),
        time: clock_time(departure.expected_local_time.as_str()),
        line: departure.line.designation.clone(),
        destination: departure.destination.clone(),
        transport,
    }
}

/// Makes the rows of a batch, one for each departure and in the same
/// order. Each row depends on its own departure alone, so a timestamp that
/// cannot be read touches no other row.
pub fn departure_rows(departures: &Vec<Departure>, now_utc: i64, offset_seconds: i32) -> (r: Vec<
    DepartureRow,
>)
    ensures
        r@.len() == departures@.len(),
        forall|i: int|
            0 <= i < departures@.len() ==> is_row_of(
                #[trigger] r@[i],
                departures@[i],
                now_utc,
                offset_seconds,
            ),
{
    let mut out: Vec<DepartureRow> = Vec::new();
    let mut i: usize = 0;
    while i < departures.len()
        invariant
            i <= departures.len(),
            out@.len() == i,
            forall|j: int|
                0 <= j < i ==> is_row_of(
                    #[trigger] out@[j],
                    departures@[j],
                    now_utc,
                    offset_seconds,
                ),
        decreases departures.len() - i,
    {
        out.push(departure_row(&departures[i], now_utc, offset_seconds));
        i += 1;
    }
    out
}

/// The name under which a mode is shown.
pub open spec fn mode_label(mode: Option<TransportMode>) -> Seq<char> {
    match mode {
        Some(TransportMode::Metro) => "Metro"@,
        Some(TransportMode::Bus) => "Bus"@,
        Some(TransportMode::Train) => "Train"@,
        Some(TransportMode::Tram) => "Tram"@,
        None => "Other"@,
    }
}

/// The text of a departure row: its five columns with a tab between them.
pub open spec fn row_text(row: DepartureRow) -> Seq<char> {
    row.wait@ + "\t"@ + row.time@ + "\t"@ + row.line@ + "\t"@ + row.destination@ + "\t"@
        + mode_label(row.transport)
}

/// The text of a stop: its name, a tab, its identifier.
pub open spec fn site_text(stop: StopRecord) -> Seq<char> {
    stop.name@ + "\t"@ + decimal_text(stop.id as nat)
}

/// Writes a departure row as one line of tab-separated columns.
pub fn row_line(row: &DepartureRow) -> (r: String)
    ensures
        r@ == row_text(*row),
{
    let mut out: Vec<char> = Vec::new();
    push_text(&mut out, row.wait.as_str());
    push_text(&mut out, "\t");
    push_text(&mut out, row.time.as_str());
    push_text(&mut out, "\t");
    push_text(&mut out, row.line.as_str());
    push_text(&mut out, "\t");
    push_text(&mut out, row.destination.as_str());
    push_text(&mut out, "\t");
    match row.transport {
        Some(TransportMode::Metro) => push_text(&mut out, "Metro"),
        Some(TransportMode::Bus) => push_text(&mut out, "Bus"),
        Some(TransportMode::Train) => push_text(&mut out, "Train"),
        Some(TransportMode::Tram) => push_text(&mut out, "Tram"),
        None => push_text(&mut out, "Other"),
    }
    assert(out@ =~= row_text(*row));
    string_of(&out)
}

/// Writes a stop as one line: name, tab, identifier.
pub fn site_line(stop: &StopRecord) -> (r: String)
    ensures
        r@ == site_text(*stop),
{
    let mut out: Vec<char> = Vec::new();
    push_text(&mut out, stop.name.as_str());
    push_text(&mut out, "\t");
    push_decimal(&mut out, stop.id as u128);
    assert(out@ =~= site_text(*stop));
    string_of(&out)
}

/// The heading above the departures of the stop called `name`.
pub open spec fn heading_text(name: Seq<char>) -> Seq<char> {
    "Departures from "@ + name + ":"@
}

/// What the user is told when no station answers `station`.
pub open spec fn not_found_text(station: Seq<char>) -> Seq<char> {
    "Error: Station '"@ + station + "' not found."@
}

/// Writes the heading above the departures of a stop.
pub fn heading_line(stop: &StopRecord) -> (r: String)
    ensures
        r@ == heading_text(stop.name@),
{
    let mut out: Vec<char> = Vec::new();
    push_text(&mut out, "Departures from ");
    push_text(&mut out, stop.name.as_str());
    push_text(&mut out, ":");
    assert(out@ =~= heading_text(stop.name@));
    string_of(&out)
}

/// Writes what the user is told when no station answers `station`.
pub fn not_found_line(station: &str) -> (r: String)
    ensures
        r@ == not_found_text(station@),
{
    let mut out: Vec<char> = Vec::new();
    push_text(&mut out, "Error: Station '");
    push_text(&mut out, station);
    push_text(&mut out, "' not found.");
    assert(out@ =~= not_found_text(station@));
    string_of(&out)
}

} // verus!
