//! The departure filters, each a pure step from one list to the next, and
//! the fixed pipeline that chains them.

use crate::lists::{lemma_filter_members, lemma_filter_next, limited};
use crate::model::{Departure, TransportMode};
use crate::rules::{
    destination_matches, destination_rule, folded_line_rule, group_in_mode, group_rule,
    line_matches, mode_named, mode_of,
};
use crate::text::{lowercase_chars, lowercased};
use vstd::prelude::*;

verus! {

/// A departure whose line carries a category label.
pub open spec fn is_classifiable(departure: Departure) -> bool {
    departure.line.transport_group is Some
}

/// A departure whose line answers the line filter `wanted`.
pub open spec fn runs_on_line(departure: Departure, wanted: Seq<char>) -> bool {
    line_matches(departure.line.designation@, wanted)
}

/// A departure whose category label belongs to `mode`. One without a label
/// belongs to no mode.
pub open spec fn travels_by(departure: Departure, mode: TransportMode) -> bool {
    match departure.line.transport_group {
        Some(group) => group_in_mode(group@, mode),
        None => false,
    }
}

/// A departure whose destination answers the destination filter `wanted`.
pub open spec fn heads_for(departure: Departure, wanted: Seq<char>) -> bool {
    destination_matches(departure.destination@, wanted)
}

/// The departures that carry a category label, in their order.
pub open spec fn classifiable(items: Seq<Departure>) -> Seq<Departure> {
    items.filter(|d: Departure| is_classifiable(d))
}

/// The departures on the wanted line, in their order.
pub open spec fn on_line(items: Seq<Departure>, wanted: Seq<char>) -> Seq<Departure> {
    items.filter(|d: Departure| runs_on_line(d, wanted))
}

/// The departures of one mode, in their order.
pub open spec fn in_mode(items: Seq<Departure>, mode: TransportMode) -> Seq<Departure> {
    items.filter(|d: Departure| travels_by(d, mode))
}

/// The departures that a transport filter word lets through: those of the
/// mode it names, or all of them when it names none.
pub open spec fn by_transport(items: Seq<Departure>, word: Seq<char>) -> Seq<Departure> {
    match mode_named(word) {
        Some(mode) => in_mode(items, mode),
        None => items,
    }
}

/// The departures for the wanted destination, in their order.
pub open spec fn bound_for(items: Seq<Departure>, wanted: Seq<char>) -> Seq<Departure> {
    items.filter(|d: Departure| heads_for(d, wanted))
}

/// Drops every departure whose line carries no category label.
pub fn keep_classifiable(departures: &Vec<Departure>) -> (r: Vec<Departure>)
    ensures
        r@ == classifiable(departures@),
{
    let ghost keep = |d: Departure| is_classifiable(d);
    let mut out: Vec<Departure> = Vec::new();
    let mut i: usize = 0;
    while i < departures.len()
        invariant
            i <= departures.len(),
            keep == |d: Departure| is_classifiable(d),
            out@ == departures@.take(i as int).filter(keep),
        decreases departures.len() - i,
    {
        proof {
            lemma_filter_next(departures@, keep, i as int);
        }
        if departures[i].line.transport_group.is_some() {
            out.push(departures[i].clone());
        }
        i += 1;
    }
    assert(departures@.take(departures@.len() as int) =~= departures@);
    out
}

/// Keeps the departures whose line answers the line filter.
pub fn filter_by_line(departures: &Vec<Departure>, wanted: &str) -> (r: Vec<Departure>)
    ensures
        r@ == on_line(departures@, wanted@),
{
    let ghost keep = |d: Departure| runs_on_line(d, wanted@);
    let folded_wanted = lowercase_chars(wanted);
    let mut out: Vec<Departure> = Vec::new();
    let mut i: usize = 0;
    while i < departures.len()
        invariant
            i <= departures.len(),
            keep == |d: Departure| runs_on_line(d, wanted@),
            folded_wanted@ == lowercased(wanted@),
            out@ == departures@.take(i as int).filter(keep),
        decreases departures.len() - i,
    {
        proof {
            lemma_filter_next(departures@, keep, i as int);
        }
        let folded_designation = lowercase_chars(departures[i].line.designation.as_str());
        if folded_line_rule(&folded_designation, &folded_wanted) {
            out.push(departures[i].clone());
        }
        i += 1;
    }
    assert(departures@.take(departures@.len() as int) =~= departures@);
    out
}

/// Keeps the departures whose category label belongs to `mode`.
pub fn filter_by_mode(departures: &Vec<Departure>, mode: TransportMode) -> (r: Vec<Departure>)
    ensures
        r@ == in_mode(departures@, mode),
{
    let ghost keep = |d: Departure| travels_by(d, mode);
    let mut out: Vec<Departure> = Vec::new();
    let mut i: usize = 0;
    while i < departures.len()
        invariant
            i <= departures.len(),
            keep == |d: Departure| travels_by(d, mode),
            out@ == departures@.take(i as int).filter(keep),
        decreases departures.len() - i,
    {
        proof {
            lemma_filter_next(departures@, keep, i as int);
        }
        let matched = match &departures[i].line.transport_group {
            Some(group) => group_rule(group.as_str(), mode),
            None => false,
        };
        if matched {
            out.push(departures[i].clone());
        }
        i += 1;
    }
    assert(departures@.take(departures@.len() as int) =~= departures@);
    out
}

/// Applies a transport filter word: keeps the departures of the mode it
/// names, and all of them when it names no mode.
pub fn filter_by_transport(departures: &Vec<Departure>, word: &str) -> (r: Vec<Departure>)
    ensures
        r@ == by_transport(departures@, word@),
{
    match mode_of(word) {
        Some(mode) => filter_by_mode(departures, mode),
        None => copy_all(departures),
    }
}

/// Keeps the departures whose destination answers the destination filter.
pub fn filter_by_destination(departures: &Vec<Departure>, wanted: &str) -> (r: Vec<Departure>)
    ensures
        r@ == bound_for(departures@, wanted@),
{
    let ghost keep = |d: Departure| heads_for(d, wanted@);
    let mut out: Vec<Departure> = Vec::new();
    let mut i: usize = 0;
    while i < departures.len()
        invariant
            i <= departures.len(),
            keep == |d: Departure| heads_for(d, wanted@),
            out@ == departures@.take(i as int).filter(keep),
        decreases departures.len() - i,
    {
        proof {
            lemma_filter_next(departures@, keep, i as int);
        }
        if destination_rule(departures[i].destination.as_str(), wanted) {
            out.push(departures[i].clone());
        }
        i += 1;
    }
    assert(departures@.take(departures@.len() as int) =~= departures@);
    out
}

/// Keeps the first `count` departures.
pub fn limit_to(departures: &Vec<Departure>, count: usize) -> (r: Vec<Departure>)
    ensures
        r@ == limited(departures@, count as nat),
{
    let end: usize = if count < departures.len() {
        count
    } else {
        departures.len()
    };
    let mut out: Vec<Departure> = Vec::new();
    let mut i: usize = 0;
    while i < end
        invariant
            i <= end <= departures.len(),
            out@ == departures@.take(i as int),
        decreases end - i,
    {
        out.push(departures[i].clone());
        assert(departures@.take(i + 1) =~= departures@.take(i as int).push(departures@[i as int]));
        i += 1;
    }
    assert(departures@.take(departures@.len() as int) =~= departures@);
    out
}

/// A new list with the same departures.
pub fn copy_all(departures: &Vec<Departure>) -> (r: Vec<Departure>)
    ensures
        r@ == departures@,
{
    let r = limit_to(departures, departures.len());
    r
}

/// What the pipeline lets through: the classifiable departures, then those
/// on the wanted line, of the wanted mode and for the wanted destination,
/// each filter applied only where it is given, and at the end no more than
/// `count` of them.
pub open spec fn pipeline(
    items: Seq<Departure>,
    line: Option<Seq<char>>,
    count: Option<nat>,
    mode: Option<TransportMode>,
    destination: Option<Seq<char>>,
) -> Seq<Departure> {
    let usable = classifiable(items);
    let lined = match line {
        Some(wanted) => on_line(usable, wanted),
        None => usable,
    };
    let moded = match mode {
        Some(wanted) => in_mode(lined, wanted),
        None => lined,
    };
    let destined = match destination {
        Some(wanted) => bound_for(moded, wanted),
        None => moded,
    };
    match count {
        Some(n) => limited(destined, n),
        None => destined,
    }
}

/// The mode that a request asks for: the one its transport word names.
/// No word, or a word that names no mode, asks for none.
pub open spec fn requested_mode(transport: Option<Seq<char>>) -> Option<TransportMode> {
    match transport {
        Some(word) => mode_named(word),
        None => None,
    }
}

/// What a request selects from the fetched departures.
pub open spec fn selected(
    items: Seq<Departure>,
    line: Option<Seq<char>>,
    count: Option<nat>,
    transport: Option<Seq<char>>,
    destination: Option<Seq<char>>,
) -> Seq<Departure> {
    pipeline(items, line, count, requested_mode(transport), destination)
}

/// The view of an optional text.
pub open spec fn text_of(value: Option<String>) -> Option<Seq<char>> {
    match value {
        Some(text) => Some(text@),
        None => None,
    }
}

/// The mathematical value of an optional count.
pub open spec fn count_of(value: Option<usize>) -> Option<nat> {
    match value {
        Some(n) => Some(n as nat),
        None => None,
    }
}

/// Runs the pipeline over freshly fetched departures, which stay untouched:
/// classifiability, line, transport mode, destination, limit, in that order.
pub fn select_departures(
    fetched: &Vec<Departure>,
    line: &Option<String>,
    count: &Option<usize>,
    mode: Option<TransportMode>,
    destination: &Option<String>,
) -> (r: Vec<Departure>)
    ensures
        r@ == pipeline(fetched@, text_of(*line), count_of(*count), mode, text_of(*destination)),
        forall|i: int| 0 <= i < r@.len() ==> is_classifiable(#[trigger] r@[i]),
{
    let usable = keep_classifiable(fetched);
    let lined = match line {
        Some(wanted) => filter_by_line(&usable, wanted.as_str()),
        None => usable,
    };
    let moded = match mode {
        Some(wanted) => filter_by_mode(&lined, wanted),
        None => lined,
    };
    let destined = match destination {
        Some(wanted) => filter_by_destination(&moded, wanted.as_str()),
        None => moded,
    };
    let r = match count {
        Some(n) => limit_to(&destined, *n),
        None => destined,
    };
    proof {
        lemma_pipeline_classifiable(
            fetched@,
            text_of(*line),
            count_of(*count),
            mode,
            text_of(*destination),
        );
    }
    r
}

/// Selects from freshly fetched departures what a request asks for. A
/// transport word that names no mode filters nothing.
pub fn get_departures(
    fetched: &Vec<Departure>,
    line: &Option<String>,
    count: &Option<usize>,
    transport: &Option<String>,
    destination: &Option<String>,
) -> (r: Vec<Departure>)
    ensures
        r@ == selected(
            fetched@,
            text_of(*line),
            count_of(*count),
            text_of(*transport),
            text_of(*destination),
        ),
        forall|i: int| 0 <= i < r@.len() ==> is_classifiable(#[trigger] r@[i]),
{
    let mode = match transport {
        Some(word) => mode_of(word.as_str()),
        None => None,
    };
    select_departures(fetched, line, count, mode, destination)
}

/// A departures request with its station resolved and its transport word read.
#[derive(Debug, PartialEq, Eq)]
pub struct ResolvedQuery {
    pub stop_id: u64,
    pub line_filter: Option<String>,
    pub transport_filter: Option<TransportMode>,
    pub destination_filter: Option<String>,
    pub limit: Option<usize>,
}

impl ResolvedQuery {
    /// What this query selects from the fetched departures.
    pub open spec fn selection(self, items: Seq<Departure>) -> Seq<Departure> {
        pipeline(
            items,
            text_of(self.line_filter),
            count_of(self.limit),
            self.transport_filter,
            text_of(self.destination_filter),
        )
    }

    /// Makes the query for the stop `stop_id` from the filters as given.
    pub fn new(
        stop_id: u64,
        line: Option<String>,
        count: Option<usize>,
        transport: &Option<String>,
        destination: Option<String>,
    ) -> (r: ResolvedQuery)
        ensures
            r.stop_id == stop_id,
            r.line_filter == line,
            r.limit == count,
            r.transport_filter == requested_mode(text_of(*transport)),
            r.destination_filter == destination,
    {
        let transport_filter = match transport {
            Some(word) => mode_of(word.as_str()),
            None => None,
        };
        ResolvedQuery {
            stop_id,
            line_filter: line,
            transport_filter,
            destination_filter: destination,
            limit: count,
        }
    }

    /// Selects from freshly fetched departures what this query asks for.
    pub fn select(&self, fetched: &Vec<Departure>) -> (r: Vec<Departure>)
        ensures
            r@ == self.selection(fetched@),
            forall|i: int| 0 <= i < r@.len() ==> is_classifiable(#[trigger] r@[i]),
    {
        select_departures(
            fetched,
            &self.line_filter,
            &self.limit,
            self.transport_filter,
            &self.destination_filter,
        )
    }
}

/// A member of a list of classifiable departures is classifiable.
proof fn lemma_member_keeps(items: Seq<Departure>, member: Departure)
    requires
        forall|i: int| 0 <= i < items.len() ==> is_classifiable(#[trigger] items[i]),
        items.contains(member),
    ensures
        is_classifiable(member),
{
    let j = choose|j: int| 0 <= j < items.len() && items[j] == member;
    assert(is_classifiable(items[j]));
}

/// A departure without a category label never comes out of the pipeline,
/// whatever the other filters are, and also where no mode is asked for.
pub proof fn lemma_pipeline_classifiable(
    items: Seq<Departure>,
    line: Option<Seq<char>>,
    count: Option<nat>,
    mode: Option<TransportMode>,
    destination: Option<Seq<char>>,
)
    ensures
        forall|i: int|
            0 <= i < pipeline(items, line, count, mode, destination).len() ==> is_classifiable(
                #[trigger] pipeline(items, line, count, mode, destination)[i],
            ),
{
    let usable = classifiable(items);
    lemma_filter_members(items, |d: Departure| is_classifiable(d));
    assert(forall|i: int| 0 <= i < usable.len() ==> is_classifiable(#[trigger] usable[i]));
    let lined = match line {
        Some(wanted) => on_line(usable, wanted),
        None => usable,
    };
    if let Some(wanted) = line {
        lemma_filter_members(usable, |d: Departure| runs_on_line(d, wanted));
    }
    assert forall|i: int| 0 <= i < lined.len() implies is_classifiable(#[trigger] lined[i]) by {
        lemma_member_keeps(usable, lined[i]);
    }
    let moded = match mode {
        Some(wanted) => in_mode(lined, wanted),
        None => lined,
    };
    if let Some(wanted) = mode {
        lemma_filter_members(lined, |d: Departure| travels_by(d, wanted));
    }
    assert forall|i: int| 0 <= i < moded.len() implies is_classifiable(#[trigger] moded[i]) by {
        lemma_member_keeps(lined, moded[i]);
    }
    let destined = match destination {
        Some(wanted) => bound_for(moded, wanted),
        None => moded,
    };
    if let Some(wanted) = destination {
        lemma_filter_members(moded, |d: Departure| heads_for(d, wanted));
    }
    assert forall|i: int| 0 <= i < destined.len() implies is_classifiable(
        #[trigger] destined[i],
    ) by {
        lemma_member_keeps(moded, destined[i]);
    }
}

/// What a request selects never holds a departure without a category label.
pub proof fn lemma_selected_classifiable(
    items: Seq<Departure>,
    line: Option<Seq<char>>,
    count: Option<nat>,
    transport: Option<Seq<char>>,
    destination: Option<Seq<char>>,
)
    ensures
        forall|i: int|
            0 <= i < selected(items, line, count, transport, destination).len()
                ==> is_classifiable(
                #[trigger] selected(items, line, count, transport, destination)[i],
            ),
{
    lemma_pipeline_classifiable(items, line, count, requested_mode(transport), destination);
}

/// A transport word that names no mode selects what no transport word selects.
pub proof fn lemma_unknown_transport_filters_nothing(
    items: Seq<Departure>,
    line: Option<Seq<char>>,
    count: Option<nat>,
    word: Seq<char>,
    destination: Option<Seq<char>>,
)
    requires
        mode_named(word) is None,
    ensures
        selected(items, line, count, Some(word), destination) == selected(
            items,
            line,
            count,
            None,
            destination,
        ),
{
}

/// The query made from a request selects what the request selects.
pub proof fn lemma_query_selects_request(
    query: ResolvedQuery,
    items: Seq<Departure>,
    transport: Option<Seq<char>>,
)
    requires
        query.transport_filter == requested_mode(transport),
    ensures
        query.selection(items) == selected(
            items,
            text_of(query.line_filter),
            count_of(query.limit),
            transport,
            text_of(query.destination_filter),
        ),
{
}

/// Limiting what a request without a count selects gives what the request
/// with that count selects, and limiting that again changes nothing.
pub proof fn lemma_limit_is_last(
    items: Seq<Departure>,
    line: Option<Seq<char>>,
    count: nat,
    transport: Option<Seq<char>>,
    destination: Option<Seq<char>>,
)
    ensures
        selected(items, line, Some(count), transport, destination) == limited(
            selected(items, line, None, transport, destination),
            count,
        ),
        limited(selected(items, line, Some(count), transport, destination), count) == selected(
            items,
            line,
            Some(count),
            transport,
            destination,
        ),
{
}

} // verus!
