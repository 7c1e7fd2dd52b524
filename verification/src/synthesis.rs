//! The declaration synthesizer: what an expansion produces from a declaration
//! that is well shaped.

use crate::capability::{capability_set, Capability};
use crate::declaration::{EnumSpec, Modifier};
use crate::extract::{extract, initializers, record_of, stripped_cases, RecordType, StrippedCase};
use crate::modifiers::{forward_modifiers, forwarded_modifiers};
use crate::table::Table;
use crate::validate::well_shaped;
use crate::width::{select_width, selected_width, Width};
use vstd::prelude::*;

verus! {

/// The generated enumeration: the data cases without fields and initializers.
#[derive(Clone, Debug, PartialEq, Eq)]
pub struct Enumeration<S> {
    /// The modifiers of the declaration that are forwarded.
    pub modifiers: Vec<Modifier<S>>,
    pub name: S,
    /// The width of the integer that stores a case.
    pub width: Width,
    /// The capabilities that the generator attaches, always the same.
    pub capabilities: Vec<Capability>,
    /// The cases in declaration order; the case at index `i` has ordinal `i`.
    pub cases: Vec<StrippedCase<S>>,
}

/// Everything one expansion produces.
#[derive(Debug, PartialEq, Eq)]
pub struct GeneratedArtifact<S, T> {
    /// The visibility of the declaration, which the enumeration and the
    /// record type share.
    pub visibility: S,
    pub enumeration: Enumeration<S>,
    pub record: RecordType<S>,
    /// One row per case, in declaration order. A row is the initializer of
    /// its case; `None` is the stand-in where the declaration gives none.
    pub table: Table<Option<T>>,
}

impl<S, T> GeneratedArtifact<S, T> {
    /// The enumeration has as many cases as the table has rows, and at least one.
    pub open spec fn wf(self) -> bool {
        self.enumeration.cases@.len() == self.table@.len() >= 1
    }

    /// Whether this is what the synthesizer makes of `spec`, which has to be
    /// well shaped for anything to be made of it.
    pub open spec fn is_synthesis_of(self, spec: EnumSpec<S, T>) -> bool {
        &&& well_shaped(spec.cases@)
        &&& self.visibility == spec.visibility
        &&& self.enumeration.modifiers@ == forwarded_modifiers(spec.modifiers@)
        &&& self.enumeration.name == spec.name
        &&& self.enumeration.width == selected_width(spec.modifiers@)
        &&& self.enumeration.capabilities@ == capability_set()
        &&& self.enumeration.cases@ == stripped_cases(spec.cases@)
        &&& self.record == record_of(spec.cases@[0])
        &&& self.table@ == initializers(spec.cases@)
    }

    /// The count of cases of the generated enumeration.
    pub fn count(&self) -> (count: usize)
        ensures
            count == self.table@.len(),
    {
        self.table.count()
    }

    /// The capacity check: whether every case can be stored in the width that
    /// was selected. An expansion does not make this check by itself.
    pub fn fits_width(&self) -> (fits: bool)
        ensures
            fits == self.enumeration.width.spec_holds(self.table@.len()),
    {
        self.enumeration.width.holds(self.table.count())
    }
}

/// Synthesizes the artifact of a declaration. There is one exactly when the
/// cases are well shaped; what else may be wrong with the declaration does
/// not stand in the way.
pub fn synthesize<S, T>(spec: EnumSpec<S, T>) -> (artifact: Option<GeneratedArtifact<S, T>>)
    ensures
        artifact is Some <==> well_shaped(spec.cases@),
        artifact matches Some(made) ==> made.is_synthesis_of(spec) && made.wf(),
{
    let EnumSpec { modifiers, visibility, name, generics: _, cases } = spec;
    let width = select_width(&modifiers);
    let forwarded = forward_modifiers(modifiers);
    match extract(cases) {
        Some(found) => {
            let enumeration = Enumeration {
                modifiers: forwarded,
                name,
                width,
                capabilities: Capability::all(),
                cases: found.cases,
            };
            Some(
                GeneratedArtifact {
                    visibility,
                    enumeration,
                    record: found.record,
                    table: Table::new(found.initializers),
                },
            )
        },
        None => None,
    }
}

} // verus!
