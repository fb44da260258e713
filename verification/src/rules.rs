//! The matching rules for one departure: does a designation answer a line
//! filter, a category label belong to a mode, a destination answer a
//! destination filter.

use crate::model::TransportMode;
use crate::number::{parse_i64, parsed_i64, signed_decimal_chars, signed_decimal_text};
use crate::text::{
    alphabetic, begins_with, chars_of, contains, lowercase_chars, lowercased, occurs_in,
    same_text, starts_with,
};
use vstd::prelude::*;

verus! {

/// The line rule on case-folded text: the designation equals the wanted line,
/// or begins with it and goes on with a letter.
pub open spec fn folded_line_match(designation: Seq<char>, wanted: Seq<char>) -> bool {
    ||| designation == wanted
    ||| (begins_with(designation, wanted) && wanted.len() < designation.len() && alphabetic(
        designation[wanted.len() as int],
    ))
}

/// A designation answers a line filter when the rule holds of their lower-case forms.
pub open spec fn line_matches(designation: Seq<char>, wanted: Seq<char>) -> bool {
    folded_line_match(lowercased(designation), lowercased(wanted))
}

/// The words of the operator's vocabulary that mark each mode, in lower case.
pub open spec fn vocabulary(mode: TransportMode) -> Seq<Seq<char>> {
    match mode {
        TransportMode::Metro => seq!["tunnelbana"@],
        TransportMode::Bus => seq!["buss"@],
        TransportMode::Train => seq!["tåg"@],
        TransportMode::Tram => seq!["spårväg"@, "spårvagn"@],
    }
}

/// A case-folded category label belongs to `mode` when it holds one of the mode's words.
pub open spec fn folded_group_in_mode(group: Seq<char>, mode: TransportMode) -> bool {
    exists|k: int|
        0 <= k < vocabulary(mode).len() && occurs_in(#[trigger] vocabulary(mode)[k], group)
}

/// A category label belongs to `mode` when its lower-case form does.
pub open spec fn group_in_mode(group: Seq<char>, mode: TransportMode) -> bool {
    folded_group_in_mode(lowercased(group), mode)
}

/// The mode that a case-folded filter word names, if it names one.
pub open spec fn folded_mode_named(word: Seq<char>) -> Option<TransportMode> {
    if word == "metro"@ {
        Some(TransportMode::Metro)
    } else if word == "bus"@ {
        Some(TransportMode::Bus)
    } else if word == "train"@ {
        Some(TransportMode::Train)
    } else if word == "tram"@ {
        Some(TransportMode::Tram)
    } else {
        None
    }
}

/// The mode that a filter word names, whatever its case.
pub open spec fn mode_named(word: Seq<char>) -> Option<TransportMode> {
    folded_mode_named(lowercased(word))
}

/// The mode of a case-folded category label: the first of metro, bus, train
/// and tram whose vocabulary it holds.
pub open spec fn folded_classification(group: Seq<char>) -> Option<TransportMode> {
    if folded_group_in_mode(group, TransportMode::Metro) {
        Some(TransportMode::Metro)
    } else if folded_group_in_mode(group, TransportMode::Bus) {
        Some(TransportMode::Bus)
    } else if folded_group_in_mode(group, TransportMode::Train) {
        Some(TransportMode::Train)
    } else if folded_group_in_mode(group, TransportMode::Tram) {
        Some(TransportMode::Tram)
    } else {
        None
    }
}

/// The mode of a category label.
pub open spec fn classification(group: Seq<char>) -> Option<TransportMode> {
    folded_classification(lowercased(group))
}

/// A destination answers a filter that reads as an integer when it holds
/// that integer's numeral, and any other filter when it holds the filter,
/// both taken in lower case.
pub open spec fn destination_matches(destination: Seq<char>, wanted: Seq<char>) -> bool {
    match parsed_i64(wanted) {
        Some(number) => occurs_in(signed_decimal_text(number as int), destination),
        None => occurs_in(lowercased(wanted), lowercased(destination)),
    }
}

/// Tests the line rule on case-folded text.
pub fn folded_line_rule(designation: &Vec<char>, wanted: &Vec<char>) -> (r: bool)
    ensures
        r == folded_line_match(designation@, wanted@),
{
    if !starts_with(designation, wanted) {
        assert(designation@ != wanted@) by {
            if designation@ == wanted@ {
                assert(designation@.subrange(0, wanted@.len() as int) =~= wanted@);
            }
        }
        return false;
    }
    if designation.len() == wanted.len() {
        assert(designation@.subrange(0, wanted@.len() as int) =~= designation@);
        return true;
    }
    designation[wanted.len()].is_alphabetic()
}

/// Tests whether a designation answers a line filter.
pub fn line_rule(designation: &str, wanted: &str) -> (r: bool)
    ensures
        r == line_matches(designation@, wanted@),
{
    let folded_designation = lowercase_chars(designation);
    let folded_wanted = lowercase_chars(wanted);
    folded_line_rule(&folded_designation, &folded_wanted)
}

/// Tests whether a case-folded category label belongs to `mode`.
pub fn folded_group_rule(group: &Vec<char>, mode: TransportMode) -> (r: bool)
    ensures
        r == folded_group_in_mode(group@, mode),
{
    match mode {
        TransportMode::Metro => {
            let r = contains(group, &chars_of("tunnelbana"));
            assert(vocabulary(mode)[0] == "tunnelbana"@);
            r
        },
        TransportMode::Bus => {
            let r = contains(group, &chars_of("buss"));
            assert(vocabulary(mode)[0] == "buss"@);
            r
        },
        TransportMode::Train => {
            let r = contains(group, &chars_of("tåg"));
            assert(vocabulary(mode)[0] == "tåg"@);
            r
        },
        TransportMode::Tram => {
            let r = contains(group, &chars_of("spårväg")) || contains(
                group,
                &chars_of("spårvagn"),
            );
            assert(vocabulary(mode)[0] == "spårväg"@);
            assert(vocabulary(mode)[1] == "spårvagn"@);
            r
        },
    }
}

/// Tests whether a category label belongs to `mode`.
pub fn group_rule(group: &str, mode: TransportMode) -> (r: bool)
    ensures
        r == group_in_mode(group@, mode),
{
    let folded = lowercase_chars(group);
    folded_group_rule(&folded, mode)
}

/// Finds the mode of a case-folded category label.
pub fn classify_folded(group: &Vec<char>) -> (r: Option<TransportMode>)
    ensures
        r == folded_classification(group@),
{
    if folded_group_rule(group, TransportMode::Metro) {
        Some(TransportMode::Metro)
    } else if folded_group_rule(group, TransportMode::Bus) {
        Some(TransportMode::Bus)
    } else if folded_group_rule(group, TransportMode::Train) {
        Some(TransportMode::Train)
    } else if folded_group_rule(group, TransportMode::Tram) {
        Some(TransportMode::Tram)
    } else {
        None
    }
}

/// Finds the mode of a category label.
pub fn classify(group: &str) -> (r: Option<TransportMode>)
    ensures
        r == classification(group@),
{
    let folded = lowercase_chars(group);
    classify_folded(&folded)
}

/// Finds the mode that a case-folded filter word names.
pub fn folded_mode_of(word: &Vec<char>) -> (r: Option<TransportMode>)
    ensures
        r == folded_mode_named(word@),
{
    if same_text(word, &chars_of("metro")) {
        Some(TransportMode::Metro)
    } else if same_text(word, &chars_of("bus")) {
        Some(TransportMode::Bus)
    } else if same_text(word, &chars_of("train")) {
        Some(TransportMode::Train)
    } else if same_text(word, &chars_of("tram")) {
        Some(TransportMode::Tram)
    } else {
        None
    }
}

/// Finds the mode that a filter word names, whatever its case.
pub fn mode_of(word: &str) -> (r: Option<TransportMode>)
    ensures
        r == mode_named(word@),
{
    let folded = lowercase_chars(word);
    folded_mode_of(&folded)
}

/// Tests whether a destination answers a destination filter.
pub fn destination_rule(destination: &str, wanted: &str) -> (r: bool)
    ensures
        r == destination_matches(destination@, wanted@),
{
    let wanted_chars = chars_of(wanted);
    match parse_i64(&wanted_chars) {
        Some(number) => {
            let numeral = signed_decimal_chars(number);
            let text = chars_of(destination);
            contains(&text, &numeral)
        },
        None => {
            let folded_wanted = lowercase_chars(wanted);
            let folded_destination = lowercase_chars(destination);
            contains(&folded_destination, &folded_wanted)
        },
    }
}

/// A designation that answers a line filter begins with it, both in lower
/// case: a filter never lets through a line that is only a prefix of it.
pub proof fn lemma_line_match_begins_with_filter(designation: Seq<char>, wanted: Seq<char>)
    requires
        line_matches(designation, wanted),
    ensures
        begins_with(lowercased(designation), lowercased(wanted)),
        lowercased(wanted).len() <= lowercased(designation).len(),
{
    let folded = lowercased(designation);
    if folded == lowercased(wanted) {
        assert(folded.subrange(0, folded.len() as int) =~= folded);
    }
}

/// A designation that is the filter but for its case answers the filter,
/// and then nothing decides but equality: the letter rule is not asked.
pub proof fn lemma_same_line_matches(designation: Seq<char>, wanted: Seq<char>)
    requires
        lowercased(designation) == lowercased(wanted),
    ensures
        line_matches(designation, wanted),
{
}

/// A longer designation answers the filter exactly when it begins with it
/// and goes on with a letter, both in lower case.
pub proof fn lemma_variant_needs_a_letter(designation: Seq<char>, wanted: Seq<char>)
    requires
        lowercased(wanted).len() < lowercased(designation).len(),
    ensures
        line_matches(designation, wanted) <==> begins_with(
            lowercased(designation),
            lowercased(wanted),
        ) && alphabetic(lowercased(designation)[lowercased(wanted).len() as int]),
{
}

/// A label falls under at most the mode that the classification names: where
/// the classification is a mode, the label belongs to it, and where it is
/// none, the label belongs to no mode.
pub proof fn lemma_classification_sound(group: Seq<char>, mode: TransportMode)
    ensures
        classification(group) == Some(mode) ==> group_in_mode(group, mode),
        classification(group) is None ==> !group_in_mode(group, mode),
{
}

} // verus!
