//! The matched command line arguments, as the directives they stand for.
//!
//! The arguments are matched by `clap`. What it holds of an argument (whether
//! it was given, where, how often, with which values) is read through four
//! small functions whose contracts name those facts; everything built on
//! them is verified against the names.

use vstd::prelude::*;
use clap::ArgMatches;
use crate::directives::{directive_kinds, kinds_in_order, Directive, DirectiveKind, RawValue};

verus! {

/// `clap::ArgMatches`: what a command line was matched to. Nothing inside it
/// is visible here; it is read through the four functions below.
#[verifier::external_type_specification]
#[verifier::external_body]
pub struct ExArgMatches<'a>(ArgMatches<'a>);

/// Whether the argument `name` was present when the command line was
/// matched.
pub uninterp spec fn is_given(matches: ArgMatches<'static>, name: Seq<char>) -> bool;

/// The index, among everything given on the command line, of the first value
/// of the argument `name`, or of the argument itself where it takes none.
pub uninterp spec fn index_given(matches: ArgMatches<'static>, name: Seq<char>) -> Option<usize>;

/// How often the argument `name` was used; zero where it was not.
pub uninterp spec fn occurrences_given(matches: ArgMatches<'static>, name: Seq<char>) -> u64;

/// The values that the argument `name` was given with, in order, with every
/// byte sequence that is no valid text replaced by the replacement character;
/// none where the argument was not given.
pub uninterp spec fn values_given(matches: ArgMatches<'static>, name: Seq<char>) -> Option<Seq<Seq<char>>>;

/// The texts of a list of strings.
pub open spec fn texts(values: Seq<String>) -> Seq<Seq<char>> {
    values.map_values(|value: String| value@)
}

/// `ArgMatches::is_present`: whether the argument was given. The contract
/// gives that answer its name and claims nothing else of it.
#[verifier::external_body]
fn is_present(matches: &ArgMatches<'static>, name: &str) -> (present: bool)
    ensures
        present == is_given(*matches, name@),
{
    matches.is_present(name)
}

/// `ArgMatches::index_of`: the index of the argument's first value, none
/// where nothing was recorded for it. The contract gives that answer its
/// name and claims nothing else of it.
#[verifier::external_body]
fn index_of(matches: &ArgMatches<'static>, name: &str) -> (index: Option<usize>)
    ensures
        index == index_given(*matches, name@),
{
    matches.index_of(name)
}

/// `ArgMatches::occurrences_of`: how often the argument was given. The
/// contract gives that answer its name and claims nothing else of it.
#[verifier::external_body]
fn occurrences_of(matches: &ArgMatches<'static>, name: &str) -> (occurrences: u64)
    ensures
        occurrences == occurrences_given(*matches, name@),
{
    matches.occurrences_of(name)
}

/// `ArgMatches::values_of_lossy`: the values of the argument as strings,
/// none where the argument was not given. The contract names the texts of
/// those strings and claims nothing else of them.
#[verifier::external_body]
fn values_of_lossy(matches: &ArgMatches<'static>, name: &str) -> (values: Option<Vec<String>>)
    ensures
        match values {
            Some(values) => values_given(*matches, name@) == Some(texts(values@)),
            None => values_given(*matches, name@) is None,
        },
{
    matches.values_of_lossy(name)
}

/// An argument that was given but has no position that a descriptor can
/// carry: none was recorded for it, or the recorded one does not fit.
#[derive(Clone, Copy, Debug, PartialEq, Eq, Structural)]
pub struct Unplaced {
    pub kind: DirectiveKind,
}

/// The texts of a list of raw values.
pub open spec fn raw_texts(values: Seq<RawValue>) -> Seq<Seq<char>> {
    values.map_values(|value: RawValue| value.text@)
}

/// The source position of the argument `name`: its index, where one was
/// recorded and fits.
pub open spec fn position_given(matches: ArgMatches<'static>, name: Seq<char>) -> Option<u32> {
    match index_given(matches, name) {
        Some(index) => if index <= u32::MAX {
            Some(index as u32)
        } else {
            None
        },
        None => None,
    }
}

/// Whether the argument of `kind` was given without a position.
pub open spec fn is_unplaced(matches: ArgMatches<'static>, kind: DirectiveKind) -> bool {
    is_given(matches, kind.name_text()) && position_given(matches, kind.name_text()) is None
}

/// The first kind at or after place `from` of the collection order whose
/// argument was given without a position.
pub open spec fn first_unplaced(matches: ArgMatches<'static>, from: int) -> Option<DirectiveKind>
    decreases kinds_in_order().len() - from,
{
    if from < 0 || from >= kinds_in_order().len() {
        None
    } else if is_unplaced(matches, kinds_in_order()[from]) {
        Some(kinds_in_order()[from])
    } else {
        first_unplaced(matches, from + 1)
    }
}

/// The kinds whose argument was given, among the first `upto` kinds of the
/// collection order and in that order.
pub open spec fn kinds_given(matches: ArgMatches<'static>, upto: int) -> Seq<DirectiveKind>
    decreases upto,
{
    if upto <= 0 || upto > kinds_in_order().len() {
        Seq::empty()
    } else if is_given(matches, kinds_in_order()[upto - 1].name_text()) {
        kinds_given(matches, upto - 1).push(kinds_in_order()[upto - 1])
    } else {
        kinds_given(matches, upto - 1)
    }
}

/// `directive` says of the argument of `kind` what the matched arguments
/// hold of it: its position, its occurrences and the texts of its values.
/// No value has been read as a real number yet.
pub open spec fn reads(
    directive: Directive,
    matches: ArgMatches<'static>,
    kind: DirectiveKind,
) -> bool {
    let name = kind.name_text();
    &&& directive.kind == kind
    &&& Some(directive.index) == position_given(matches, name)
    &&& directive.occurrences == occurrences_given(matches, name)
    &&& raw_texts(directive.values@) == match values_given(matches, name) {
        Some(values) => values,
        None => Seq::empty(),
    }
    &&& forall|i: int| 0 <= i < directive.values@.len() ==> directive.values@[i].scalar is None
}

fn raw_values(values: &Vec<String>) -> (raw: Vec<RawValue>)
    ensures
        raw_texts(raw@) == texts(values@),
        forall|i: int| 0 <= i < raw@.len() ==> raw@[i].scalar is None,
{
    let mut raw: Vec<RawValue> = Vec::new();
    let mut i: usize = 0;
    while i < values.len()
        invariant
            0 <= i <= values@.len(),
            raw@.len() == i,
            forall|j: int| 0 <= j < i ==> raw@[j].text@ == values@[j]@,
            forall|j: int| 0 <= j < i ==> raw@[j].scalar is None,
        decreases values@.len() - i,
    {
        raw.push(RawValue { text: values[i].clone(), scalar: None });
        i = i + 1;
    }
    assert(raw_texts(raw@) =~= texts(values@));
    raw
}

/// Reads the directives off the matched arguments: one for every kind whose
/// argument was given, in collection order, with the position, occurrences
/// and value texts that were matched. Reading the values that stand for real
/// numbers is left to the caller. An argument that was given without a
/// position is reported, the first in collection order.
pub fn read_directives(matches: &ArgMatches<'static>) -> (result: Result<Vec<Directive>, Unplaced>)
    ensures
        match result {
            Ok(directives) => {
                let kinds = kinds_given(*matches, kinds_in_order().len() as int);
                &&& first_unplaced(*matches, 0) is None
                &&& directives@.len() == kinds.len()
                &&& forall|i: int|
                    0 <= i < directives@.len() ==> reads(
                        #[trigger] directives@[i],
                        *matches,
                        kinds[i],
                    )
            },
            Err(error) => first_unplaced(*matches, 0) == Some(error.kind),
        },
{
    let kinds = directive_kinds();
    let mut directives: Vec<Directive> = Vec::new();
    let mut k: usize = 0;
    while k < kinds.len()
        invariant
            kinds@ == kinds_in_order(),
            0 <= k <= kinds@.len(),
            first_unplaced(*matches, 0) == first_unplaced(*matches, k as int),
            directives@.len() == kinds_given(*matches, k as int).len(),
            forall|i: int|
                0 <= i < directives@.len() ==> reads(
                    #[trigger] directives@[i],
                    *matches,
                    kinds_given(*matches, k as int)[i],
                ),
        decreases kinds@.len() - k,
    {
        let kind = kinds[k];
        let name = kind.name();
        if is_present(matches, name) {
            let index: u32 = match index_of(matches, name) {
                Some(index) => {
                    if index > 0xffff_ffff {
                        return Err(Unplaced { kind });
                    }
                    index as u32
                },
                None => {
                    return Err(Unplaced { kind });
                },
            };
            let occurrences = occurrences_of(matches, name);
            let values = match values_of_lossy(matches, name) {
                Some(values) => raw_values(&values),
                None => {
                    let none: Vec<RawValue> = Vec::new();
                    assert(raw_texts(none@) =~= Seq::<Seq<char>>::empty());
                    none
                },
            };
            directives.push(Directive { kind, index, occurrences, values });
        }
        k = k + 1;
    }
    Ok(directives)
}

} // verus!
