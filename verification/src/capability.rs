//! The capabilities that every generated enumeration carries, and the check
//! that the declaration does not ask for one of them again.

use crate::declaration::{reads_as, Modifier};
use crate::diagnostic::Diagnostic;
use vstd::prelude::*;

verus! {

/// A behaviour that the generator attaches to every enumeration it produces.
/// The caller may not request any of them: each is reserved.
#[derive(Clone, Copy, Debug, PartialEq, Eq, Hash, Structural)]
pub enum Capability {
    /// Bitwise duplication, `Copy`.
    Duplication,
    /// Explicit cloning, `Clone`.
    Cloning,
    /// Textual debug formatting, `Debug`.
    DebugFormatting,
    /// Hashing, `Hash`.
    Hashing,
    /// Partial equality, `PartialEq`.
    PartialEquality,
    /// Total equality, `Eq`.
    TotalEquality,
}

/// The capability that `name` requests, if it is a reserved one.
pub open spec fn reserved_capability(name: Seq<char>) -> Option<Capability> {
    if name == "Copy"@ {
        Some(Capability::Duplication)
    } else if name == "Clone"@ {
        Some(Capability::Cloning)
    } else if name == "Debug"@ {
        Some(Capability::DebugFormatting)
    } else if name == "Hash"@ {
        Some(Capability::Hashing)
    } else if name == "PartialEq"@ {
        Some(Capability::PartialEquality)
    } else if name == "Eq"@ {
        Some(Capability::TotalEquality)
    } else {
        None
    }
}

/// The capabilities attached to every generated enumeration, in the order in
/// which they are attached.
pub open spec fn capability_set() -> Seq<Capability> {
    seq![
        Capability::Duplication,
        Capability::Cloning,
        Capability::DebugFormatting,
        Capability::Hashing,
        Capability::PartialEquality,
        Capability::TotalEquality,
    ]
}

impl Capability {
    /// The name of the trait that provides this capability.
    pub open spec fn spec_trait_name(self) -> Seq<char> {
        match self {
            Capability::Duplication => "Copy"@,
            Capability::Cloning => "Clone"@,
            Capability::DebugFormatting => "Debug"@,
            Capability::Hashing => "Hash"@,
            Capability::PartialEquality => "PartialEq"@,
            Capability::TotalEquality => "Eq"@,
        }
    }

    /// The full path of the trait that provides this capability.
    pub open spec fn spec_trait_path(self) -> Seq<char> {
        match self {
            Capability::Duplication => "core::marker::Copy"@,
            Capability::Cloning => "core::clone::Clone"@,
            Capability::DebugFormatting => "core::fmt::Debug"@,
            Capability::Hashing => "core::hash::Hash"@,
            Capability::PartialEquality => "core::cmp::PartialEq"@,
            Capability::TotalEquality => "core::cmp::Eq"@,
        }
    }

    pub fn trait_path(self) -> (path: String)
        ensures
            path@ == self.spec_trait_path(),
    {
        match self {
            Capability::Duplication => String::from_str("core::marker::Copy"),
            Capability::Cloning => String::from_str("core::clone::Clone"),
            Capability::DebugFormatting => String::from_str("core::fmt::Debug"),
            Capability::Hashing => String::from_str("core::hash::Hash"),
            Capability::PartialEquality => String::from_str("core::cmp::PartialEq"),
            Capability::TotalEquality => String::from_str("core::cmp::Eq"),
        }
    }

    pub fn trait_name(self) -> (name: String)
        ensures
            name@ == self.spec_trait_name(),
    {
        match self {
            Capability::Duplication => String::from_str("Copy"),
            Capability::Cloning => String::from_str("Clone"),
            Capability::DebugFormatting => String::from_str("Debug"),
            Capability::Hashing => String::from_str("Hash"),
            Capability::PartialEquality => String::from_str("PartialEq"),
            Capability::TotalEquality => String::from_str("Eq"),
        }
    }

    /// Looks `name` up among the reserved capabilities.
    pub fn from_name(name: &String) -> (found: Option<Capability>)
        ensures
            found == reserved_capability(name@),
    {
        if reads_as(name, "Copy") {
            Some(Capability::Duplication)
        } else if reads_as(name, "Clone") {
            Some(Capability::Cloning)
        } else if reads_as(name, "Debug") {
            Some(Capability::DebugFormatting)
        } else if reads_as(name, "Hash") {
            Some(Capability::Hashing)
        } else if reads_as(name, "PartialEq") {
            Some(Capability::PartialEquality)
        } else if reads_as(name, "Eq") {
            Some(Capability::TotalEquality)
        } else {
            None
        }
    }

    /// The fixed set of capabilities, as a list.
    pub fn all() -> (set: Vec<Capability>)
        ensures
            set@ == capability_set(),
    {
        let mut set: Vec<Capability> = Vec::new();
        set.push(Capability::Duplication);
        set.push(Capability::Cloning);
        set.push(Capability::DebugFormatting);
        set.push(Capability::Hashing);
        set.push(Capability::PartialEquality);
        set.push(Capability::TotalEquality);
        set
    }
}

/// Whether `modifier` is a request to derive capabilities.
pub open spec fn requests_capabilities<S>(modifier: Modifier<S>) -> bool {
    modifier.name@ == "derive"@
}

/// The positions, among the first `upto` arguments of `modifier`, of those
/// that name a reserved capability, in ascending order.
pub open spec fn reserved_arguments<S>(modifier: Modifier<S>, upto: int) -> Seq<int> {
    Seq::new(upto as nat, |j: int| j).filter(
        |j: int| reserved_capability(modifier.arguments@[j]@) is Some,
    )
}

/// The conflict reported for argument `argument` of the modifier at `position`.
pub open spec fn conflict_at<S>(
    modifier: Modifier<S>,
    position: usize,
    argument: int,
) -> Diagnostic {
    Diagnostic::ReservedCapability {
        modifier: position,
        argument: argument as usize,
        capability: reserved_capability(modifier.arguments@[argument]@)->0,
    }
}

/// The conflicts that the modifier at `position` gives rise to: one for each
/// argument of a derive request that names a reserved capability, in the order
/// of the arguments.
pub open spec fn conflicts<S>(modifier: Modifier<S>, position: usize) -> Seq<Diagnostic> {
    if requests_capabilities(modifier) {
        reserved_arguments(modifier, modifier.arguments@.len() as int).map_values(
            |j: int| conflict_at(modifier, position, j),
        )
    } else {
        Seq::empty()
    }
}

/// Whether `modifier` requests at least one reserved capability.
pub open spec fn is_conflicting<S>(modifier: Modifier<S>) -> bool {
    requests_capabilities(modifier) && reserved_arguments(
        modifier,
        modifier.arguments@.len() as int,
    ).len() > 0
}

/// Whether `diagnostic` is a conflict over `capability`.
pub open spec fn names_capability(diagnostic: Diagnostic, capability: Capability) -> bool {
    diagnostic matches Diagnostic::ReservedCapability { capability: named, .. } && named
        == capability
}

/// How many of `diagnostics` are conflicts over `capability`.
pub open spec fn conflicts_naming(diagnostics: Seq<Diagnostic>, capability: Capability) -> nat {
    diagnostics.filter(|diagnostic: Diagnostic| names_capability(diagnostic, capability)).len()
}

/// How many times `modifier` requests `capability`: how many arguments of a
/// derive request name it.
pub open spec fn requests_in<S>(modifier: Modifier<S>, capability: Capability) -> nat {
    if requests_capabilities(modifier) {
        modifier.arguments@.filter(
            |argument: String| reserved_capability(argument@) == Some(capability),
        ).len()
    } else {
        0
    }
}

/// How many times `modifiers` request `capability`, all in all.
pub open spec fn requests_for<S>(modifiers: Seq<Modifier<S>>, capability: Capability) -> nat
    decreases modifiers.len(),
{
    if modifiers.len() == 0 {
        0
    } else {
        requests_for(modifiers.drop_last(), capability) + requests_in(modifiers.last(), capability)
    }
}

/// Looking at one argument more adds its position to the reserved ones, or
/// adds nothing.
pub proof fn lemma_reserved_arguments_step<S>(modifier: Modifier<S>, upto: int)
    requires
        0 <= upto < modifier.arguments@.len(),
    ensures
        reserved_arguments(modifier, upto + 1) == if reserved_capability(
            modifier.arguments@[upto]@,
        ) is Some {
            reserved_arguments(modifier, upto).push(upto)
        } else {
            reserved_arguments(modifier, upto)
        },
{
    reveal(Seq::filter);
    let longer = Seq::new((upto + 1) as nat, |j: int| j);
    assert(longer.drop_last() == Seq::new(upto as nat, |j: int| j));
    assert(longer.last() == upto);
}

/// Whether `modifier` requests at least one reserved capability.
pub fn requests_reserved<S>(modifier: &Modifier<S>) -> (conflicting: bool)
    ensures
        conflicting == is_conflicting(*modifier),
{
    if !reads_as(&modifier.name, "derive") {
        return false;
    }
    let mut conflicting = false;
    let count = modifier.arguments.len();
    let mut j: usize = 0;
    proof {
        reveal(Seq::filter);
        assert(reserved_arguments(*modifier, 0).len() == 0);
    }
    while j < count
        invariant
            j <= count == modifier.arguments@.len(),
            conflicting == (reserved_arguments(*modifier, j as int).len() > 0),
        decreases count - j,
    {
        proof {
            lemma_reserved_arguments_step(*modifier, j as int);
        }
        if Capability::from_name(&modifier.arguments[j]).is_some() {
            conflicting = true;
        }
        j += 1;
    }
    conflicting
}

/// Reports the conflicts of the modifier at `position`, appending them to
/// `diagnostics`, and says whether there was any.
pub fn check_capabilities<S>(
    modifier: &Modifier<S>,
    position: usize,
    diagnostics: &mut Vec<Diagnostic>,
) -> (conflicting: bool)
    ensures
        final(diagnostics)@ == old(diagnostics)@ + conflicts(*modifier, position),
        conflicting == is_conflicting(*modifier),
{
    if !reads_as(&modifier.name, "derive") {
        assert(diagnostics@ == old(diagnostics)@ + Seq::<Diagnostic>::empty());
        return false;
    }
    let mut conflicting = false;
    let count = modifier.arguments.len();
    let mut j: usize = 0;
    proof {
        reveal(Seq::filter);
        assert(diagnostics@ == old(diagnostics)@ + reserved_arguments(*modifier, 0).map_values(
            |k: int| conflict_at(*modifier, position, k),
        ));
    }
    while j < count
        invariant
            j <= count == modifier.arguments@.len(),
            diagnostics@ == old(diagnostics)@ + reserved_arguments(*modifier, j as int).map_values(
                |k: int| conflict_at(*modifier, position, k),
            ),
            conflicting == (reserved_arguments(*modifier, j as int).len() > 0),
        decreases count - j,
    {
        proof {
            lemma_reserved_arguments_step(*modifier, j as int);
        }
        let ghost before = reserved_arguments(*modifier, j as int);
        match Capability::from_name(&modifier.arguments[j]) {
            Some(capability) => {
                diagnostics.push(
                    Diagnostic::ReservedCapability { modifier: position, argument: j, capability },
                );
                conflicting = true;
                assert(before.push(j as int).map_values(
                    |k: int| conflict_at(*modifier, position, k),
                ) == before.map_values(|k: int| conflict_at(*modifier, position, k)).push(
                    conflict_at(*modifier, position, j as int),
                ));
            },
            None => {},
        }
        j += 1;
    }
    conflicting
}

} // verus!
