//! One pass over the modifiers of a declaration: what is reported of each, and
//! which of them are forwarded to the generated enumeration.

use crate::capability::{
    check_capabilities, conflicts, is_conflicting, requests_capabilities, requests_reserved,
};
use crate::declaration::{reads_as, Modifier};
use crate::diagnostic::Diagnostic;
use crate::width::{read_width, selects_width, width_diagnostics};
use vstd::prelude::*;

verus! {

/// What is reported of the modifier at `position`: the conflicts of a derive
/// request, or the complaint about a width modifier.
pub open spec fn modifier_diagnostics<S>(modifier: Modifier<S>, position: usize) -> Seq<
    Diagnostic,
> {
    if requests_capabilities(modifier) {
        conflicts(modifier, position)
    } else {
        width_diagnostics(modifier, position)
    }
}

/// For each of the first `upto` modifiers, what is reported of it.
pub open spec fn diagnostics_by_modifier<S>(modifiers: Seq<Modifier<S>>, upto: int) -> Seq<
    Seq<Diagnostic>,
> {
    Seq::new(upto as nat, |i: int| modifier_diagnostics(modifiers[i], i as usize))
}

/// Everything reported of the modifiers, in the order of the modifiers.
pub open spec fn modifiers_diagnostics<S>(modifiers: Seq<Modifier<S>>) -> Seq<Diagnostic> {
    diagnostics_by_modifier(modifiers, modifiers.len() as int).flatten()
}

/// Whether `modifier` is forwarded to the generated enumeration. A derive
/// request is dropped as a whole once it names a reserved capability; a width
/// modifier is never forwarded, because the width selected is attached anew.
pub open spec fn passes_through<S>(modifier: Modifier<S>) -> bool {
    if requests_capabilities(modifier) {
        !is_conflicting(modifier)
    } else {
        !selects_width(modifier)
    }
}

/// The modifiers that are forwarded, in the order of the declaration.
pub open spec fn forwarded_modifiers<S>(modifiers: Seq<Modifier<S>>) -> Seq<Modifier<S>> {
    modifiers.filter(|modifier: Modifier<S>| passes_through(modifier))
}

/// Reports what there is to report of the modifier at `position`.
pub fn check_modifier<S>(
    modifier: &Modifier<S>,
    position: usize,
    diagnostics: &mut Vec<Diagnostic>,
)
    ensures
        final(diagnostics)@ == old(diagnostics)@ + modifier_diagnostics(*modifier, position),
{
    if reads_as(&modifier.name, "derive") {
        check_capabilities(modifier, position, diagnostics);
    } else {
        match read_width(modifier) {
            Some(None) => {
                diagnostics.push(Diagnostic::UnsupportedWidth { modifier: position });
                assert(diagnostics@ == old(diagnostics)@ + width_diagnostics(*modifier, position));
            },
            _ => {
                assert(diagnostics@ == old(diagnostics)@ + width_diagnostics(*modifier, position));
            },
        }
    }
}

/// Reports what there is to report of the modifiers, in their order.
pub fn check_modifiers<S>(modifiers: &Vec<Modifier<S>>, diagnostics: &mut Vec<Diagnostic>)
    ensures
        final(diagnostics)@ == old(diagnostics)@ + modifiers_diagnostics(modifiers@),
{
    let count = modifiers.len();
    let mut i: usize = 0;
    proof {
        assert(diagnostics_by_modifier(modifiers@, 0).flatten() == Seq::<Diagnostic>::empty());
        assert(diagnostics@ == old(diagnostics)@ + Seq::<Diagnostic>::empty());
    }
    while i < count
        invariant
            i <= count == modifiers@.len(),
            diagnostics@ == old(diagnostics)@ + diagnostics_by_modifier(
                modifiers@,
                i as int,
            ).flatten(),
        decreases count - i,
    {
        proof {
            let sofar = diagnostics_by_modifier(modifiers@, i as int);
            let next = modifier_diagnostics(modifiers@[i as int], i);
            assert(diagnostics_by_modifier(modifiers@, i + 1) == sofar.push(next));
            sofar.lemma_flatten_push(next);
            assert((old(diagnostics)@ + sofar.flatten()) + next == old(diagnostics)@ + (
            sofar.flatten() + next));
        }
        check_modifier(&modifiers[i], i, diagnostics);
        i += 1;
    }
}

/// Whether `modifier` is forwarded to the generated enumeration.
pub fn is_forwarded<S>(modifier: &Modifier<S>) -> (forwarded: bool)
    ensures
        forwarded == passes_through(*modifier),
{
    if reads_as(&modifier.name, "derive") {
        !requests_reserved(modifier)
    } else {
        read_width(modifier).is_none()
    }
}

/// Keeps the modifiers that are forwarded, in the order of the declaration.
pub fn forward_modifiers<S>(modifiers: Vec<Modifier<S>>) -> (forwarded: Vec<Modifier<S>>)
    ensures
        forwarded@ == forwarded_modifiers(modifiers@),
{
    let mut forwarded: Vec<Modifier<S>> = Vec::new();
    proof {
        reveal(Seq::filter);
    }
    for modifier in walk: modifiers
        invariant
            walk.seq() == modifiers@,
            forwarded@ == forwarded_modifiers(modifiers@.take(walk.index() as int)),
    {
        proof {
            reveal(Seq::filter);
            let done = walk.index() as int;
            assert(modifiers@.take(done + 1).drop_last() == modifiers@.take(done));
        }
        if is_forwarded(&modifier) {
            forwarded.push(modifier);
        }
    }
    proof {
        assert(modifiers@.take(modifiers@.len() as int) == modifiers@);
    }
    forwarded
}

} // verus!
