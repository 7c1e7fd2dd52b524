//! The table extractor: splits the cases of a declaration into the layout
//! case, which gives the record type, and the data cases, which give the
//! stripped case list and the rows of the table. Declaration order is kept
//! throughout: it decides the ordinals.

use crate::declaration::{Case, Field, Fields, Modifier};
use crate::validate::well_shaped;
use vstd::prelude::*;

verus! {

/// The record type that holds the payload of a case, made from the layout case.
#[derive(Clone, Debug, PartialEq, Eq)]
pub struct RecordType<S> {
    /// The modifiers of the layout case, which it hands on to the record type.
    pub modifiers: Vec<Modifier<S>>,
    pub name: S,
    pub fields: Vec<Field<S>>,
}

/// A case of the generated enumeration: a data case without its fields and
/// without its initializer.
#[derive(Clone, Debug, PartialEq, Eq)]
pub struct StrippedCase<S> {
    pub modifiers: Vec<Modifier<S>>,
    pub name: S,
}

/// What the extractor makes of the cases of a well-shaped declaration.
#[derive(Debug, PartialEq, Eq)]
pub struct Extraction<S, T> {
    pub record: RecordType<S>,
    /// The data cases, stripped, in declaration order.
    pub cases: Vec<StrippedCase<S>>,
    /// The initializer of each data case, in the same order. `None` is the
    /// stand-in for an initializer that the declaration does not give.
    pub initializers: Vec<Option<T>>,
}

/// The cases after the first, in declaration order.
pub open spec fn data_cases<S, T>(cases: Seq<Case<S, T>>) -> Seq<Case<S, T>> {
    if cases.len() == 0 {
        cases
    } else {
        cases.drop_first()
    }
}

/// The record type that a layout case defines.
pub open spec fn record_of<S, T>(layout: Case<S, T>) -> RecordType<S> {
    RecordType { modifiers: layout.modifiers, name: layout.name, fields: layout.fields->Named_0 }
}

/// A data case without its fields and its initializer.
pub open spec fn stripped<S, T>(case: Case<S, T>) -> StrippedCase<S> {
    StrippedCase { modifiers: case.modifiers, name: case.name }
}

/// The stripped case list of a declaration.
pub open spec fn stripped_cases<S, T>(cases: Seq<Case<S, T>>) -> Seq<StrippedCase<S>> {
    data_cases(cases).map_values(|case: Case<S, T>| stripped(case))
}

/// The rows of the table of a declaration: the initializer of each data case.
pub open spec fn initializers<S, T>(cases: Seq<Case<S, T>>) -> Seq<Option<T>> {
    data_cases(cases).map_values(|case: Case<S, T>| case.initializer)
}

/// Extracts record type, stripped case list and rows from the cases of a
/// declaration. There is a result exactly when the cases are well shaped.
pub fn extract<S, T>(cases: Vec<Case<S, T>>) -> (extraction: Option<Extraction<S, T>>)
    ensures
        extraction is Some <==> well_shaped(cases@),
        extraction matches Some(found) ==> {
            &&& found.record == record_of(cases@[0])
            &&& found.cases@ == stripped_cases(cases@)
            &&& found.initializers@ == initializers(cases@)
        },
{
    if cases.len() < 2 {
        return None;
    }
    let mut record: Option<RecordType<S>> = None;
    let mut stripped_list: Vec<StrippedCase<S>> = Vec::new();
    let mut rows: Vec<Option<T>> = Vec::new();
    for case in walk: cases
        invariant
            walk.seq() == cases@,
            cases@.len() >= 2,
            walk.index() == 0 ==> record is None && stripped_list@.len() == 0 && rows@.len() == 0,
            walk.index() > 0 ==> {
                &&& cases@[0].fields is Named
                &&& record == Some(record_of(cases@[0]))
                &&& stripped_list@ == stripped_cases(cases@.take(walk.index() as int))
                &&& rows@ == initializers(cases@.take(walk.index() as int))
            },
    {
        let ghost done = walk.index() as int;
        let Case { modifiers, name, fields, initializer } = case;
        if record.is_none() {
            match fields {
                Fields::Named(fields) => {
                    record = Some(RecordType { modifiers, name, fields });
                    assert(stripped_list@ =~= stripped_cases(cases@.take(1)));
                    assert(rows@ =~= initializers(cases@.take(1)));
                },
                _ => {
                    return None;
                },
            }
        } else {
            stripped_list.push(StrippedCase { modifiers, name });
            rows.push(initializer);
            proof {
                let shorter = data_cases(cases@.take(done));
                let longer = data_cases(cases@.take(done + 1));
                assert(longer =~= shorter.push(cases@[done]));
                assert(stripped_list@ =~= stripped_cases(cases@.take(done + 1)));
                assert(rows@ =~= initializers(cases@.take(done + 1)));
            }
        }
    }
    proof {
        assert(cases@.take(cases@.len() as int) == cases@);
    }
    match record {
        Some(record) => Some(Extraction { record, cases: stripped_list, initializers: rows }),
        None => None,
    }
}

} // verus!
