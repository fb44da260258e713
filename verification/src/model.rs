//! The records that travel through the engine.

use vstd::prelude::*;

verus! {

/// A named stop with its numeric identifier.
#[derive(Debug, PartialEq, Eq)]
pub struct StopRecord {
    pub id: u64,
    pub name: String,
}

impl Clone for StopRecord {
    fn clone(&self) -> (r: Self)
        ensures
            r == *self,
    {
        StopRecord { id: self.id, name: self.name.clone() }
    }
}

/// A line as riders know it, with the operator's own category label.
#[derive(Debug, PartialEq, Eq)]
pub struct Line {
    pub designation: String,
    pub transport_group: Option<String>,
}

impl Clone for Line {
    fn clone(&self) -> (r: Self)
        ensures
            r == *self,
    {
        let transport_group = match &self.transport_group {
            Some(group) => Some(group.clone()),
            None => None,
        };
        Line { designation: self.designation.clone(), transport_group }
    }
}

/// One upcoming departure from a stop.
#[derive(Debug, PartialEq, Eq)]
pub struct Departure {
    pub destination: String,
    pub expected_local_time: String,
    pub line: Line,
}

impl Clone for Departure {
    fn clone(&self) -> (r: Self)
        ensures
            r == *self,
    {
        Departure {
            destination: self.destination.clone(),
            expected_local_time: self.expected_local_time.clone(),
            line: self.line.clone(),
        }
    }
}

/// The logical transport modes that a query can ask for.
#[derive(Debug, Clone, Copy, PartialEq, Eq, Structural)]
pub enum TransportMode {
    Metro,
    Bus,
    Train,
    Tram,
}

/// The command line, once parsed.
#[derive(Debug, PartialEq, Eq)]
pub struct Cli {
    pub command: Commands,
}

/// What the user asks for.
#[derive(Debug, PartialEq, Eq)]
pub enum Commands {
    /// Find stations by name.
    Search { query: String },
    /// Show upcoming departures from a station.
    Departures {
        /// Station name or identifier.
        station: String,
        /// Line to keep, variants included.
        line: Option<String>,
        /// Transport mode to keep.
        transport_type: Option<String>,
        /// How many departures to show at most.
        count: usize,
        /// Destination to keep.
        destination: Option<String>,
    },
}

} // verus!
