//! Value tables: a closed enumeration whose cases each carry one constant record.
//!
//! A declaration lists a layout case, which gives the shape of the record, and
//! then the data cases, each with the initializer of its record. One call of
//! [`const_table`] validates such a declaration and synthesizes what stands
//! for it: the enumeration without fields, the record type, and the table
//! with its count, iteration, projection and reconstruction. Every problem of
//! the declaration is reported in the same pass.

pub mod capability;
pub mod declaration;
pub mod diagnostic;
pub mod extract;
pub mod laws;
pub mod modifiers;
pub mod synthesis;
pub mod table;
pub mod validate;
pub mod width;

pub use crate::capability::Capability;
pub use crate::declaration::{Case, EnumSpec, Field, Fields, Item, Modifier};
pub use crate::diagnostic::{Category, Diagnostic, Location};
pub use crate::extract::{RecordType, StrippedCase};
pub use crate::synthesis::{Enumeration, GeneratedArtifact};
pub use crate::table::{CaseIter, Ordinal, Table};
pub use crate::width::Width;

use crate::synthesis::synthesize;
use crate::validate::{diagnostics_of, synthesizable, validate};
use vstd::prelude::*;

verus! {

/// The outcome of one expansion.
#[derive(Debug, PartialEq, Eq)]
pub struct Expansion<S, T> {
    /// Every problem found, in the order in which it was found.
    pub diagnostics: Vec<Diagnostic>,
    /// What could be produced. It is there whenever nothing fatal was found,
    /// also beside diagnostics.
    pub artifact: Option<GeneratedArtifact<S, T>>,
}

/// Expands the declaration of a value table: validates `item`, and synthesizes
/// its artifact unless something fatal is wrong with it.
pub fn const_table<S, T>(item: Item<S, T>) -> (expansion: Expansion<S, T>)
    ensures
        expansion.diagnostics@ == diagnostics_of(item),
        expansion.artifact is Some <==> synthesizable(item),
        expansion.artifact matches Some(made) ==> item matches Item::Enum(spec)
            && made.is_synthesis_of(spec) && made.wf(),
{
    match item {
        Item::Enum(spec) => {
            let diagnostics = validate(&spec);
            let artifact = synthesize(spec);
            Expansion { diagnostics, artifact }
        },
        Item::Other => {
            let mut diagnostics: Vec<Diagnostic> = Vec::new();
            diagnostics.push(Diagnostic::UnsupportedItem);
            Expansion { diagnostics, artifact: None }
        },
    }
}

} // verus!
