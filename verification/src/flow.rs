//! The decisions of one invocation: which record set to fetch next, what
//! to do with it, and how a failed fetch is reported.

use crate::filter::{count_of, selected, text_of, ResolvedQuery};
use crate::model::{Commands, Departure, StopRecord};
use crate::number::{decimal_text, parsed_u64};
use crate::resolve::{is_synthetic, matching_stops, plan_resolution, resolve, Resolution};
use crate::text::string_of;
use crate::wait::{push_decimal, push_text};
use vstd::prelude::*;

verus! {

/// The service's address, up to the path of a record set.
pub const API_ROOT: &'static str = "https://transport.integration.sl.se/v1/sites";

/// The address of the stop directory, with every stop expanded.
pub open spec fn sites_address() -> Seq<char> {
    API_ROOT@ + "?expand=true"@
}

/// The address of the departures of the stop `stop_id`.
pub open spec fn departures_address(stop_id: u64) -> Seq<char> {
    API_ROOT@ + "/"@ + decimal_text(stop_id as nat) + "/departures"@
}

/// Writes the address of the stop directory.
pub fn sites_url() -> (r: String)
    ensures
        r@ == sites_address(),
{
    let mut out: Vec<char> = Vec::new();
    push_text(&mut out, API_ROOT);
    push_text(&mut out, "?expand=true");
    assert(out@ =~= sites_address());
    string_of(&out)
}

/// Writes the address of the departures of one stop.
pub fn departures_url(stop_id: u64) -> (r: String)
    ensures
        r@ == departures_address(stop_id),
{
    let mut out: Vec<char> = Vec::new();
    push_text(&mut out, API_ROOT);
    push_text(&mut out, "/");
    push_decimal(&mut out, stop_id as u128);
    push_text(&mut out, "/departures");
    assert(out@ =~= departures_address(stop_id));
    string_of(&out)
}

/// A fetch that failed: the service could not be reached, answered with an
/// error, or sent something of another form.
#[derive(Debug, PartialEq, Eq)]
pub enum FetchError {
    /// The stop directory could not be had.
    Directory { reason: String },
    /// The departures of one stop could not be had.
    Departures { stop_id: u64, reason: String },
}

/// The message of a fetch error: which record set, for which stop, and why.
pub open spec fn fetch_error_text(error: FetchError) -> Seq<char> {
    match error {
        FetchError::Directory { reason } => "could not fetch the stop directory: "@ + reason@,
        FetchError::Departures { stop_id, reason } => "could not fetch departures for stop "@
            + decimal_text(stop_id as nat) + ": "@ + reason@,
    }
}

impl FetchError {
    /// Writes the message of this error.
    pub fn message(&self) -> (r: String)
        ensures
            r@ == fetch_error_text(*self),
    {
        let mut out: Vec<char> = Vec::new();
        match self {
            FetchError::Directory { reason } => {
                push_text(&mut out, "could not fetch the stop directory: ");
                push_text(&mut out, reason.as_str());
            },
            FetchError::Departures { stop_id, reason } => {
                push_text(&mut out, "could not fetch departures for stop ");
                push_decimal(&mut out, *stop_id as u128);
                push_text(&mut out, ": ");
                push_text(&mut out, reason.as_str());
            },
        }
        assert(out@ =~= fetch_error_text(*self));
        string_of(&out)
    }
}

/// Resolves a query against what the directory fetch brought back. A failed
/// fetch becomes a directory error; a query that spells an identifier is
/// resolved all the same, since it needs no directory.
pub fn resolve_fetched(query: &str, fetched: Result<Vec<StopRecord>, String>) -> (r: Result<
    Vec<StopRecord>,
    FetchError,
>)
    ensures
        r is Err <==> fetched is Err && parsed_u64(query@) is None,
        r matches Err(error) ==> error == (FetchError::Directory { reason: fetched->Err_0 }),
        r matches Ok(stops) ==> {
            &&& parsed_u64(query@) is Some ==> stops@.len() == 1 && is_synthetic(stops@[0], query@)
            &&& parsed_u64(query@) is None ==> stops@ == matching_stops(fetched->Ok_0@, query@)
        },
{
    match fetched {
        Ok(directory) => Ok(resolve(query, &directory)),
        Err(reason) => match plan_resolution(query) {
            Resolution::Known(stop) => {
                let mut out: Vec<StopRecord> = Vec::new();
                out.push(stop);
                Ok(out)
            },
            Resolution::Lookup => Err(FetchError::Directory { reason }),
        },
    }
}

/// A copy of an optional text.
fn copy_of(value: &Option<String>) -> (r: Option<String>)
    ensures
        r == *value,
{
    match value {
        Some(text) => Some(text.clone()),
        None => None,
    }
}

/// Runs the filter pipeline over what the departures fetch for `stop_id`
/// brought back. A failed fetch becomes an error that names the stop; an
/// empty selection is a result like any other.
pub fn fetch_departures(
    stop_id: u64,
    fetched: Result<Vec<Departure>, String>,
    line: &Option<String>,
    count: &Option<usize>,
    transport: &Option<String>,
    destination: &Option<String>,
) -> (r: Result<Vec<Departure>, FetchError>)
    ensures
        r is Err <==> fetched is Err,
        r matches Err(error) ==> error == (FetchError::Departures {
            stop_id,
            reason: fetched->Err_0,
        }),
        r matches Ok(chosen) ==> chosen@ == selected(
            fetched->Ok_0@,
            text_of(*line),
            count_of(*count),
            text_of(*transport),
            text_of(*destination),
        ),
{
    let query = ResolvedQuery::new(
        stop_id,
        copy_of(line),
        *count,
        transport,
        copy_of(destination),
    );
    match fetched {
        Ok(departures) => Ok(query.select(&departures)),
        Err(reason) => Err(FetchError::Departures { stop_id: query.stop_id, reason }),
    }
}

/// What to do next for a command.
#[derive(Debug, PartialEq, Eq)]
pub enum Action {
    /// Fetch the stop directory and come back with it.
    FetchDirectory,
    /// Fetch the departures of this stop and run the pipeline over them.
    FetchDepartures { stop: StopRecord },
    /// Show these stops, one line each.
    ShowStops { stops: Vec<StopRecord> },
    /// Tell the user that no station answers the name.
    StationNotFound { station: String },
}

/// The station text of a command: the query of a search, the station of a
/// departures request.
pub open spec fn station_of(command: Commands) -> Seq<char> {
    match command {
        Commands::Search { query } => query@,
        Commands::Departures { station, .. } => station@,
    }
}

/// `action` is the right step for `command`, given the directory where it
/// has been fetched. A station that spells an identifier never asks for the
/// directory, and a name always asks for it first. Of several stops that
/// answer a departures request the first is taken.
pub open spec fn is_next_action(
    action: Action,
    command: Commands,
    directory: Option<Seq<StopRecord>>,
) -> bool {
    let station = station_of(command);
    match command {
        Commands::Search { .. } => {
            if parsed_u64(station) is Some {
                action matches Action::ShowStops { stops } && stops@.len() == 1 && is_synthetic(
                    stops@[0],
                    station,
                )
            } else {
                match directory {
                    None => action is FetchDirectory,
                    Some(all) => action matches Action::ShowStops { stops } && stops@
                        == matching_stops(all, station),
                }
            }
        },
        Commands::Departures { .. } => {
            if parsed_u64(station) is Some {
                action matches Action::FetchDepartures { stop } && is_synthetic(stop, station)
            } else {
                match directory {
                    None => action is FetchDirectory,
                    Some(all) => if matching_stops(all, station).len() == 0 {
                        action matches Action::StationNotFound { station: named } && named@
                            == station
                    } else {
                        action matches Action::FetchDepartures { stop } && stop == matching_stops(
                            all,
                            station,
                        )[0]
                    },
                }
            }
        },
    }
}

/// The view of an optional directory.
pub open spec fn directory_of(directory: Option<&Vec<StopRecord>>) -> Option<Seq<StopRecord>> {
    match directory {
        Some(all) => Some(all@),
        None => None,
    }
}

/// Decides the next step for `command`: `directory` is `None` until the
/// stop directory has been fetched.
pub fn next_action(command: &Commands, directory: Option<&Vec<StopRecord>>) -> (r: Action)
    ensures
        is_next_action(r, *command, directory_of(directory)),
{
    let station: &String = match command {
        Commands::Search { query } => query,
        Commands::Departures { station, .. } => station,
    };
    let is_search = match command {
        Commands::Search { .. } => true,
        Commands::Departures { .. } => false,
    };
    match plan_resolution(station.as_str()) {
        Resolution::Known(stop) => {
            if is_search {
                let mut stops: Vec<StopRecord> = Vec::new();
                stops.push(stop);
                Action::ShowStops { stops }
            } else {
                Action::FetchDepartures { stop }
            }
        },
        Resolution::Lookup => match directory {
            None => Action::FetchDirectory,
            Some(all) => {
                let stops = resolve(station.as_str(), all);
                if is_search {
                    Action::ShowStops { stops }
                } else if stops.len() == 0 {
                    Action::StationNotFound { station: station.clone() }
                } else {
                    Action::FetchDepartures { stop: stops[0].clone() }
                }
            },
        },
    }
}

/// The directory is asked for at most once, and never for a station that
/// spells an identifier: the right step is a fetch of the directory only
/// while none has been fetched and the station is a name.
pub proof fn lemma_directory_fetched_only_for_names(
    action: Action,
    command: Commands,
    directory: Option<Seq<StopRecord>>,
)
    requires
        is_next_action(action, command, directory),
    ensures
        action is FetchDirectory <==> directory is None && parsed_u64(station_of(command)) is None,
{
}

} // verus!
