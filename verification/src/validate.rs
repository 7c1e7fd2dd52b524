//! The structural validator and the list of everything one pass reports.

use crate::declaration::{Case, EnumSpec, Item};
use crate::diagnostic::Diagnostic;
use crate::capability::{requests_capabilities, reserved_capability};
use crate::modifiers::{check_modifiers, modifiers_diagnostics};
use crate::width::is_unsupported_width;
use vstd::prelude::*;

verus! {

/// What is reported of the generic parameters: a table has none.
pub open spec fn generics_diagnostics<S>(generics: Seq<S>) -> Seq<Diagnostic> {
    if generics.len() > 0 {
        seq![Diagnostic::GenericParameters]
    } else {
        Seq::empty()
    }
}

/// What is reported of the case at `position`, which is not the first: that it
/// declares fields, then that it has no initializer.
pub open spec fn case_diagnostics<S, T>(case: Case<S, T>, position: usize) -> Seq<Diagnostic> {
    let fields: Seq<Diagnostic> = if case.fields.count() > 0 {
        seq![Diagnostic::UnexpectedFields { case: position }]
    } else {
        Seq::empty()
    };
    let initializer: Seq<Diagnostic> = if case.initializer is None {
        seq![Diagnostic::MissingInitializer { case: position }]
    } else {
        Seq::empty()
    };
    fields + initializer
}

/// For each of the first `upto` cases, what is reported of it as a data case.
/// Nothing is reported here of the first case, which is the layout case.
pub open spec fn diagnostics_by_case<S, T>(cases: Seq<Case<S, T>>, upto: int) -> Seq<
    Seq<Diagnostic>,
> {
    Seq::new(
        upto as nat,
        |i: int|
            if i == 0 {
                Seq::empty()
            } else {
                case_diagnostics(cases[i], i as usize)
            },
    )
}

/// Everything reported of the data cases, in declaration order.
pub open spec fn data_diagnostics<S, T>(cases: Seq<Case<S, T>>) -> Seq<Diagnostic> {
    diagnostics_by_case(cases, cases.len() as int).flatten()
}

/// Whether the cases have the shape from which a table can be made: a layout
/// case with a record shape, followed by at least one data case.
pub open spec fn well_shaped<S, T>(cases: Seq<Case<S, T>>) -> bool {
    cases.len() >= 2 && cases[0].fields is Named
}

/// What is reported of the shape of the declaration as a whole. Both findings
/// are fatal, and the lack of data cases is looked for first.
pub open spec fn shape_diagnostics<S, T>(cases: Seq<Case<S, T>>) -> Seq<Diagnostic> {
    if cases.len() < 2 {
        seq![Diagnostic::MissingDataCases]
    } else if !(cases[0].fields is Named) {
        seq![Diagnostic::MalformedLayout]
    } else {
        Seq::empty()
    }
}

/// Everything one pass reports of an enumeration, in the order in which it is
/// reported: generic parameters, modifiers, data cases, overall shape.
pub open spec fn declaration_diagnostics<S, T>(spec: EnumSpec<S, T>) -> Seq<Diagnostic> {
    generics_diagnostics(spec.generics@) + modifiers_diagnostics(spec.modifiers@)
        + data_diagnostics(spec.cases@) + shape_diagnostics(spec.cases@)
}

/// Everything one pass reports of an item.
pub open spec fn diagnostics_of<S, T>(item: Item<S, T>) -> Seq<Diagnostic> {
    match item {
        Item::Enum(spec) => declaration_diagnostics(spec),
        Item::Other => seq![Diagnostic::UnsupportedItem],
    }
}

/// Whether the problem that `diagnostic` names is there in `spec`, at the
/// place that `diagnostic` names.
pub open spec fn is_due<S, T>(spec: EnumSpec<S, T>, diagnostic: Diagnostic) -> bool {
    match diagnostic {
        Diagnostic::UnsupportedItem => false,
        Diagnostic::GenericParameters => spec.generics@.len() > 0,
        Diagnostic::ReservedCapability { modifier, argument, capability } => {
            &&& modifier < spec.modifiers@.len()
            &&& requests_capabilities(spec.modifiers@[modifier as int])
            &&& argument < spec.modifiers@[modifier as int].arguments@.len()
            &&& reserved_capability(spec.modifiers@[modifier as int].arguments@[argument as int]@)
                == Some(capability)
        },
        Diagnostic::UnsupportedWidth { modifier } => {
            &&& modifier < spec.modifiers@.len()
            &&& is_unsupported_width(spec.modifiers@[modifier as int])
        },
        Diagnostic::UnexpectedFields { case } => {
            &&& 1 <= case < spec.cases@.len()
            &&& spec.cases@[case as int].fields.count() > 0
        },
        Diagnostic::MissingInitializer { case } => {
            &&& 1 <= case < spec.cases@.len()
            &&& spec.cases@[case as int].initializer is None
        },
        Diagnostic::MissingDataCases => spec.cases@.len() < 2,
        Diagnostic::MalformedLayout => spec.cases@.len() >= 2 && !(spec.cases@[0].fields is Named),
    }
}

/// Whether an artifact is produced for an item.
pub open spec fn synthesizable<S, T>(item: Item<S, T>) -> bool {
    item matches Item::Enum(spec) && well_shaped(spec.cases@)
}

/// Reports generic parameters, if there are any.
pub fn check_generics<S>(generics: &Vec<S>, diagnostics: &mut Vec<Diagnostic>)
    ensures
        final(diagnostics)@ == old(diagnostics)@ + generics_diagnostics(generics@),
{
    if generics.len() > 0 {
        diagnostics.push(Diagnostic::GenericParameters);
    }
    assert(diagnostics@ == old(diagnostics)@ + generics_diagnostics(generics@));
}

/// Reports what there is to report of the data case at `position`.
pub fn check_case<S, T>(case: &Case<S, T>, position: usize, diagnostics: &mut Vec<Diagnostic>)
    ensures
        final(diagnostics)@ == old(diagnostics)@ + case_diagnostics(*case, position),
{
    if !case.fields.is_empty() {
        diagnostics.push(Diagnostic::UnexpectedFields { case: position });
    }
    if case.initializer.is_none() {
        diagnostics.push(Diagnostic::MissingInitializer { case: position });
    }
    assert(diagnostics@ == old(diagnostics)@ + case_diagnostics(*case, position));
}

/// Reports what there is to report of the data cases, in declaration order.
pub fn check_data_cases<S, T>(cases: &Vec<Case<S, T>>, diagnostics: &mut Vec<Diagnostic>)
    ensures
        final(diagnostics)@ == old(diagnostics)@ + data_diagnostics(cases@),
{
    let count = cases.len();
    proof {
        assert(diagnostics_by_case(cases@, 0).flatten() == Seq::<Diagnostic>::empty());
        assert(diagnostics@ == old(diagnostics)@ + Seq::<Diagnostic>::empty());
    }
    if count == 0 {
        return ;
    }
    proof {
        let none = diagnostics_by_case(cases@, 0);
        assert(diagnostics_by_case(cases@, 1) == none.push(Seq::empty()));
        none.lemma_flatten_push(Seq::empty());
    }
    let mut i: usize = 1;
    while i < count
        invariant
            1 <= i <= count == cases@.len(),
            diagnostics@ == old(diagnostics)@ + diagnostics_by_case(cases@, i as int).flatten(),
        decreases count - i,
    {
        proof {
            let sofar = diagnostics_by_case(cases@, i as int);
            let next = case_diagnostics(cases@[i as int], i);
            assert(diagnostics_by_case(cases@, i + 1) == sofar.push(next));
            sofar.lemma_flatten_push(next);
            assert((old(diagnostics)@ + sofar.flatten()) + next == old(diagnostics)@ + (
            sofar.flatten() + next));
        }
        check_case(&cases[i], i, diagnostics);
        i += 1;
    }
}

/// Reports what is wrong with the shape of the declaration as a whole, and
/// says whether a table can be made from it.
pub fn check_shape<S, T>(cases: &Vec<Case<S, T>>, diagnostics: &mut Vec<Diagnostic>) -> (shaped:
    bool)
    ensures
        final(diagnostics)@ == old(diagnostics)@ + shape_diagnostics(cases@),
        shaped == well_shaped(cases@),
{
    let shaped = if cases.len() < 2 {
        diagnostics.push(Diagnostic::MissingDataCases);
        false
    } else if !cases[0].fields.is_named() {
        diagnostics.push(Diagnostic::MalformedLayout);
        false
    } else {
        true
    };
    assert(diagnostics@ == old(diagnostics)@ + shape_diagnostics(cases@));
    shaped
}

/// Validates an enumeration: reports every problem of one pass, in order.
pub fn validate<S, T>(spec: &EnumSpec<S, T>) -> (diagnostics: Vec<Diagnostic>)
    ensures
        diagnostics@ == declaration_diagnostics(*spec),
{
    let mut diagnostics: Vec<Diagnostic> = Vec::new();
    check_generics(&spec.generics, &mut diagnostics);
    check_modifiers(&spec.modifiers, &mut diagnostics);
    check_data_cases(&spec.cases, &mut diagnostics);
    check_shape(&spec.cases, &mut diagnostics);
    diagnostics
}

} // verus!
