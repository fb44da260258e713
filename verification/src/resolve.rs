//! Station lookup: from what the user typed to stop records.

use crate::lists::lemma_filter_next;
use crate::model::StopRecord;
use crate::number::{parse_u64, parsed_u64};
use crate::text::{chars_of, contains, lowercase_chars, lowercased, occurs_in};
use vstd::prelude::*;

verus! {

/// A stop name answers a query when it holds the query, both in lower case.
pub open spec fn name_matches(name: Seq<char>, query: Seq<char>) -> bool {
    occurs_in(lowercased(query), lowercased(name))
}

/// The stops of the directory whose name answers the query, in directory order.
pub open spec fn matching_stops(directory: Seq<StopRecord>, query: Seq<char>) -> Seq<StopRecord> {
    directory.filter(|stop: StopRecord| name_matches(stop.name@, query))
}

/// `stop` stands for the identifier that `query` spells, under the query's own text as name.
pub open spec fn is_synthetic(stop: StopRecord, query: Seq<char>) -> bool {
    &&& parsed_u64(query) == Some(stop.id)
    &&& stop.name@ == query
}

/// How a query is to be resolved.
#[derive(Debug, PartialEq, Eq)]
pub enum Resolution {
    /// The query spells an identifier: this is the stop, and no directory is needed.
    Known(StopRecord),
    /// The query is a name: the directory has to be searched.
    Lookup,
}

/// Decides from the query alone whether the directory is needed.
pub fn plan_resolution(query: &str) -> (r: Resolution)
    ensures
        parsed_u64(query@) is Some <==> r is Known,
        r matches Resolution::Known(stop) ==> is_synthetic(stop, query@),
{
    let chars = chars_of(query);
    match parse_u64(&chars) {
        Some(id) => Resolution::Known(StopRecord { id, name: query.to_owned() }),
        None => Resolution::Lookup,
    }
}

/// The stops of `directory` whose name holds `query`, whatever the case, in
/// directory order.
pub fn search_for_sites(query: &str, directory: &Vec<StopRecord>) -> (r: Vec<StopRecord>)
    ensures
        r@ == matching_stops(directory@, query@),
{
    let ghost keep = |stop: StopRecord| name_matches(stop.name@, query@);
    let folded_query = lowercase_chars(query);
    let mut out: Vec<StopRecord> = Vec::new();
    let mut i: usize = 0;
    while i < directory.len()
        invariant
            i <= directory.len(),
            keep == |stop: StopRecord| name_matches(stop.name@, query@),
            folded_query@ == lowercased(query@),
            out@ == directory@.take(i as int).filter(keep),
        decreases directory.len() - i,
    {
        proof {
            lemma_filter_next(directory@, keep, i as int);
        }
        let folded_name = lowercase_chars(directory[i].name.as_str());
        if contains(&folded_name, &folded_query) {
            out.push(directory[i].clone());
        }
        i += 1;
    }
    assert(directory@.take(directory@.len() as int) =~= directory@);
    out
}

/// Resolves a query against a directory: a query that spells an identifier
/// gives that one stop whatever the directory holds, any other query the
/// stops whose name answers it. No match is an empty list.
pub fn resolve(query: &str, directory: &Vec<StopRecord>) -> (r: Vec<StopRecord>)
    ensures
        parsed_u64(query@) is Some ==> r@.len() == 1 && is_synthetic(r@[0], query@),
        parsed_u64(query@) is None ==> r@ == matching_stops(directory@, query@),
{
    match plan_resolution(query) {
        Resolution::Known(stop) => {
            let mut out: Vec<StopRecord> = Vec::new();
            out.push(stop);
            out
        },
        Resolution::Lookup => search_for_sites(query, directory),
    }
}

} // verus!
