//! What holds of every expansion and of every table, stated and proved.

use crate::capability::{
    conflict_at, conflicts, conflicts_naming, lemma_reserved_arguments_step, names_capability,
    requests_capabilities, requests_for, reserved_arguments, reserved_capability, Capability,
};
use crate::declaration::{Case, EnumSpec, Item, Modifier};
use crate::diagnostic::{Category, Diagnostic};
use crate::modifiers::{diagnostics_by_modifier, modifier_diagnostics, modifiers_diagnostics};
use crate::synthesis::GeneratedArtifact;
use crate::table::{ordinals, projection, reconstruction, Ordinal, Table};
use crate::validate::{
    case_diagnostics, data_diagnostics, declaration_diagnostics, diagnostics_by_case,
    diagnostics_of, generics_diagnostics, is_due, shape_diagnostics, synthesizable, well_shaped,
};
use vstd::prelude::*;

verus! {

/// Reconstruction is a bijection between the raw numbers below the count and
/// the cases of the table: it succeeds on each of these numbers, gives
/// different cases for different numbers, and reaches every case. On every
/// other number it fails, and hands the number back unchanged.
pub proof fn lemma_reconstruction_is_a_bijection<R>(table: Table<R>)
    ensures
        forall|raw: u64|
            raw < table@.len() ==> (#[trigger] reconstruction(table@.len(), raw)) is Ok
                && table.spec_has(reconstruction(table@.len(), raw)->Ok_0),
        forall|raw: u64|
            raw >= table@.len() ==> #[trigger] reconstruction(table@.len(), raw) == Err::<
                Ordinal,
                u64,
            >(raw),
        forall|a: u64, b: u64|
            a < table@.len() && b < table@.len() && #[trigger] reconstruction(table@.len(), a)
                == #[trigger] reconstruction(table@.len(), b) ==> a == b,
        forall|case: Ordinal| #[trigger]
            table.spec_has(case) ==> reconstruction(table@.len(), case.spec_raw()) == Ok::<
                Ordinal,
                u64,
            >(case),
{
    table.lemma_count_fits();
}

/// Iteration yields the ordinals from zero up to the count, in that order;
/// reversed iteration yields the same cases in the opposite order; and the
/// case that iteration yields at a position is the one that reconstruction
/// gives for that position.
pub proof fn lemma_iteration_is_repeated_reconstruction<R>(table: Table<R>)
    ensures
        ordinals(table@.len()).len() == table@.len(),
        forall|i: int|
            0 <= i < table@.len() ==> (#[trigger] ordinals(table@.len())[i]).index == i,
        forall|i: int|
            0 <= i < table@.len() ==> reconstruction(table@.len(), i as u64) == Ok::<
                Ordinal,
                u64,
            >(#[trigger] ordinals(table@.len())[i]),
        ordinals(table@.len()).reverse().len() == table@.len(),
        forall|i: int|
            0 <= i < table@.len() ==> #[trigger] ordinals(table@.len()).reverse()[i] == ordinals(
                table@.len(),
            )[table@.len() - 1 - i],
{
    table.lemma_count_fits();
}

/// Projection of a case gives the initializer that the declaration has for
/// the data case of that ordinal, which stands one place after the layout
/// case.
pub proof fn lemma_projection_is_the_initializer<S, T>(
    spec: EnumSpec<S, T>,
    artifact: GeneratedArtifact<S, T>,
    case: Ordinal,
)
    requires
        artifact.is_synthesis_of(spec),
        artifact.table.spec_has(case),
    ensures
        case.index + 1 < spec.cases@.len(),
        projection(artifact.table@, case) == spec.cases@[case.index + 1].initializer,
{
}

/// The count is the number of data cases of the declaration: of its cases
/// after the first.
pub proof fn lemma_count_is_the_number_of_data_cases<S, T>(
    spec: EnumSpec<S, T>,
    artifact: GeneratedArtifact<S, T>,
)
    requires
        artifact.is_synthesis_of(spec),
    ensures
        artifact.table@.len() == spec.cases@.len() - 1,
        artifact.enumeration.cases@.len() == spec.cases@.len() - 1,
{
}

/// Two declarations with the same cases have the same count, whatever their
/// modifiers are and whichever widths are selected for them.
pub proof fn lemma_count_is_independent_of_width<S, T>(
    spec: EnumSpec<S, T>,
    artifact: GeneratedArtifact<S, T>,
    other: EnumSpec<S, T>,
    other_artifact: GeneratedArtifact<S, T>,
)
    requires
        artifact.is_synthesis_of(spec),
        other_artifact.is_synthesis_of(other),
        spec.cases@ == other.cases@,
    ensures
        artifact.table@.len() == other_artifact.table@.len(),
{
}

/// What a sequence of sequences holds when flattened, one of the sequences holds.
proof fn lemma_flatten_contains<A>(parts: Seq<Seq<A>>, element: A)
    requires
        parts.flatten().contains(element),
    ensures
        exists|i: int| 0 <= i < parts.len() && (#[trigger] parts[i]).contains(element),
    decreases parts.len(),
{
    if parts.len() > 0 {
        let rest = parts.drop_first();
        let k = choose|k: int| 0 <= k < parts.flatten().len() && parts.flatten()[k] == element;
        if k < parts.first().len() {
            assert(parts.first()[k] == element);
            assert(parts[0].contains(element));
        } else {
            assert(rest.flatten()[k - parts.first().len()] == element);
            lemma_flatten_contains(rest, element);
            let i = choose|i: int| 0 <= i < rest.len() && (#[trigger] rest[i]).contains(element);
            assert(parts[i + 1] == rest[i]);
        }
    }
}

/// What one of the sequences holds, the flattened sequence holds.
proof fn lemma_flatten_keeps<A>(parts: Seq<Seq<A>>, i: int, element: A)
    requires
        0 <= i < parts.len(),
        parts[i].contains(element),
    ensures
        parts.flatten().contains(element),
    decreases parts.len(),
{
    let rest = parts.drop_first();
    vstd::seq_lib::lemma_seq_concat_contains_all_elements(parts.first(), rest.flatten(), element);
    if i > 0 {
        assert(rest[i - 1] == parts[i]);
        lemma_flatten_keeps(rest, i - 1, element);
    }
}

/// A conflict is reported of a derive request exactly for its arguments that
/// name a reserved capability.
proof fn lemma_conflicts_of_a_request<S>(modifier: Modifier<S>, position: usize, found: Diagnostic)
    ensures
        conflicts(modifier, position).contains(found) <==> requests_capabilities(modifier)
            && exists|j: int|
            0 <= j < modifier.arguments@.len() && reserved_capability(
                #[trigger] modifier.arguments@[j]@,
            ) is Some && found == conflict_at(modifier, position, j),
{
    let count = modifier.arguments@.len() as int;
    let positions = Seq::new(count as nat, |j: int| j);
    let reserved = |j: int| reserved_capability(modifier.arguments@[j]@) is Some;
    let made = |j: int| conflict_at(modifier, position, j);
    let kept = reserved_arguments(modifier, count);
    assert(kept == positions.filter(reserved));
    if requests_capabilities(modifier) {
        let all = conflicts(modifier, position);
        assert(all == kept.map_values(made));
        if all.contains(found) {
            let k = choose|k: int| 0 <= k < all.len() && all[k] == found;
            let j = kept[k];
            positions.lemma_filter_pred(reserved, k);
            assert(kept.contains(j));
            positions.lemma_filter_contains_rev(reserved, j);
            let at = choose|at: int| 0 <= at < positions.len() && positions[at] == j;
            assert(0 <= j < count);
            assert(reserved_capability(modifier.arguments@[j]@) is Some);
            assert(found == conflict_at(modifier, position, j));
        }
        if exists|j: int|
            0 <= j < count && reserved_capability(#[trigger] modifier.arguments@[j]@) is Some
                && found == conflict_at(modifier, position, j) {
            let j = choose|j: int|
                0 <= j < count && reserved_capability(#[trigger] modifier.arguments@[j]@) is Some
                    && found == conflict_at(modifier, position, j);
            assert(positions[j] == j);
            positions.lemma_filter_contains(reserved, j);
            let k = choose|k: int| 0 <= k < kept.len() && kept[k] == j;
            assert(all[k] == found);
        }
    }
}

/// What is reported of the modifiers is what is reported of one of them.
proof fn lemma_modifiers_diagnostics_by_position<S>(
    modifiers: Seq<Modifier<S>>,
    found: Diagnostic,
)
    ensures
        modifiers_diagnostics(modifiers).contains(found) <==> exists|i: int|
            0 <= i < modifiers.len() && (#[trigger] modifier_diagnostics(
                modifiers[i],
                i as usize,
            )).contains(found),
{
    let parts = diagnostics_by_modifier(modifiers, modifiers.len() as int);
    if modifiers_diagnostics(modifiers).contains(found) {
        lemma_flatten_contains(parts, found);
        let i = choose|i: int| 0 <= i < parts.len() && (#[trigger] parts[i]).contains(found);
        assert(parts[i] == modifier_diagnostics(modifiers[i], i as usize));
    }
    if exists|i: int|
        0 <= i < modifiers.len() && (#[trigger] modifier_diagnostics(
            modifiers[i],
            i as usize,
        )).contains(found) {
        let i = choose|i: int|
            0 <= i < modifiers.len() && (#[trigger] modifier_diagnostics(
                modifiers[i],
                i as usize,
            )).contains(found);
        assert(parts[i] == modifier_diagnostics(modifiers[i], i as usize));
        lemma_flatten_keeps(parts, i, found);
    }
}

/// What is reported of the data cases is what is reported of one of them.
proof fn lemma_data_diagnostics_by_position<S, T>(cases: Seq<Case<S, T>>, found: Diagnostic)
    ensures
        data_diagnostics(cases).contains(found) <==> exists|i: int|
            1 <= i < cases.len() && (#[trigger] case_diagnostics(cases[i], i as usize)).contains(
                found,
            ),
{
    let parts = diagnostics_by_case(cases, cases.len() as int);
    if data_diagnostics(cases).contains(found) {
        lemma_flatten_contains(parts, found);
        let i = choose|i: int| 0 <= i < parts.len() && (#[trigger] parts[i]).contains(found);
        let k = choose|k: int| 0 <= k < parts[i].len() && parts[i][k] == found;
        assert(i != 0);
        assert(parts[i] == case_diagnostics(cases[i], i as usize));
    }
    if exists|i: int|
        1 <= i < cases.len() && (#[trigger] case_diagnostics(cases[i], i as usize)).contains(
            found,
        ) {
        let i = choose|i: int|
            1 <= i < cases.len() && (#[trigger] case_diagnostics(cases[i], i as usize)).contains(
                found,
            );
        assert(parts[i] == case_diagnostics(cases[i], i as usize));
        lemma_flatten_keeps(parts, i, found);
    }
}

/// A diagnostic is reported of a declaration exactly when the problem that it
/// names is there, at the place that it names: nothing is reported without
/// cause, and nothing that the rules object to goes unreported.
pub proof fn lemma_reported_exactly_when_due<S, T>(spec: EnumSpec<S, T>, found: Diagnostic)
    ensures
        declaration_diagnostics(spec).contains(found) <==> is_due(spec, found),
{
    let generics = generics_diagnostics(spec.generics@);
    let modifiers = modifiers_diagnostics(spec.modifiers@);
    let data = data_diagnostics(spec.cases@);
    let shape = shape_diagnostics(spec.cases@);
    let all = declaration_diagnostics(spec);
    vstd::seq_lib::lemma_seq_concat_contains_all_elements(generics + modifiers + data, shape, found);
    vstd::seq_lib::lemma_seq_concat_contains_all_elements(generics + modifiers, data, found);
    vstd::seq_lib::lemma_seq_concat_contains_all_elements(generics, modifiers, found);
    assert(all.contains(found) <==> generics.contains(found) || modifiers.contains(found)
        || data.contains(found) || shape.contains(found));
    assert(spec.modifiers.len() == spec.modifiers@.len());
    assert(spec.cases.len() == spec.cases@.len());

    assert(generics.contains(found) <==> spec.generics@.len() > 0 && found
        == Diagnostic::GenericParameters) by {
        if generics.len() > 0 {
            assert(generics[0] == Diagnostic::GenericParameters);
        }
    }
    assert(shape.contains(found) <==> (found == Diagnostic::MissingDataCases && spec.cases@.len()
        < 2) || (found == Diagnostic::MalformedLayout && spec.cases@.len() >= 2 && !(
    spec.cases@[0].fields is Named))) by {
        if spec.cases@.len() < 2 {
            assert(shape[0] == Diagnostic::MissingDataCases);
        } else if !(spec.cases@[0].fields is Named) {
            assert(shape[0] == Diagnostic::MalformedLayout);
        }
    }

    lemma_modifiers_diagnostics_by_position(spec.modifiers@, found);
    assert(modifiers.contains(found) <==> (found is ReservedCapability || found is UnsupportedWidth)
        && is_due(spec, found)) by {
        if modifiers.contains(found) {
            let i = choose|i: int|
                0 <= i < spec.modifiers@.len() && (#[trigger] modifier_diagnostics(
                    spec.modifiers@[i],
                    i as usize,
                )).contains(found);
            let modifier = spec.modifiers@[i];
            assert(modifier.arguments.len() == modifier.arguments@.len());
            lemma_conflicts_of_a_request(modifier, i as usize, found);
            if !requests_capabilities(modifier) {
                let reported = modifier_diagnostics(modifier, i as usize);
                let k = choose|k: int| 0 <= k < reported.len() && reported[k] == found;
                assert(found == Diagnostic::UnsupportedWidth { modifier: i as usize });
            }
        }
        if (found is ReservedCapability || found is UnsupportedWidth) && is_due(spec, found) {
            match found {
                Diagnostic::ReservedCapability { modifier: i, argument: j, capability } => {
                    let modifier = spec.modifiers@[i as int];
                    lemma_conflicts_of_a_request(modifier, i, found);
                    assert(found == conflict_at(modifier, i, j as int));
                    assert(modifier_diagnostics(modifier, (i as int) as usize).contains(found));
                },
                Diagnostic::UnsupportedWidth { modifier: i } => {
                    let modifier = spec.modifiers@[i as int];
                    let reported = modifier_diagnostics(modifier, (i as int) as usize);
                    if requests_capabilities(modifier) {
                        assert(modifier.name@ == "derive"@ && modifier.name@ == "repr"@);
                        different_names();
                    }
                    assert(reported[0] == found);
                },
                _ => {},
            }
        }
    }

    lemma_data_diagnostics_by_position(spec.cases@, found);
    assert(data.contains(found) <==> (found is UnexpectedFields || found is MissingInitializer)
        && is_due(spec, found)) by {
        if data.contains(found) {
            let i = choose|i: int|
                1 <= i < spec.cases@.len() && (#[trigger] case_diagnostics(
                    spec.cases@[i],
                    i as usize,
                )).contains(found);
            let reported = case_diagnostics(spec.cases@[i], i as usize);
            let k = choose|k: int| 0 <= k < reported.len() && reported[k] == found;
        }
        if (found is UnexpectedFields || found is MissingInitializer) && is_due(spec, found) {
            match found {
                Diagnostic::UnexpectedFields { case: i } => {
                    let reported = case_diagnostics(spec.cases@[i as int], (i as int) as usize);
                    assert(reported[0] == found);
                },
                Diagnostic::MissingInitializer { case: i } => {
                    let reported = case_diagnostics(spec.cases@[i as int], (i as int) as usize);
                    assert(reported[reported.len() - 1] == found);
                },
                _ => {},
            }
        }
    }
}

/// The names of the two modifiers that the rules know differ.
proof fn different_names()
    ensures
        "derive"@ != "repr"@,
{
    reveal_strlit("derive");
    reveal_strlit("repr");
    assert("derive"@.len() == 6 && "repr"@.len() == 4);
}

/// A declaration with generic parameters is told so; one with fewer than two
/// cases is told that data cases are missing; one with two cases or more whose
/// first case has no record shape is told that the layout is malformed. None
/// of the three is reported of any other declaration.
pub proof fn lemma_structural_diagnostics<S, T>(spec: EnumSpec<S, T>)
    ensures
        spec.generics@.len() > 0 <==> declaration_diagnostics(spec).contains(
            Diagnostic::GenericParameters,
        ),
        spec.cases@.len() < 2 <==> declaration_diagnostics(spec).contains(
            Diagnostic::MissingDataCases,
        ),
        spec.cases@.len() >= 2 && !(spec.cases@[0].fields is Named) <==> declaration_diagnostics(
            spec,
        ).contains(Diagnostic::MalformedLayout),
{
    lemma_reported_exactly_when_due(spec, Diagnostic::GenericParameters);
    lemma_reported_exactly_when_due(spec, Diagnostic::MissingDataCases);
    lemma_reported_exactly_when_due(spec, Diagnostic::MalformedLayout);
}

/// An artifact is produced exactly when nothing fatal is reported.
pub proof fn lemma_artifact_unless_fatal<S, T>(item: Item<S, T>)
    ensures
        synthesizable(item) <==> forall|k: int|
            0 <= k < diagnostics_of(item).len() ==> !(#[trigger] diagnostics_of(
                item,
            )[k]).spec_is_fatal(),
{
    match item {
        Item::Other => {
            let all = diagnostics_of(item);
            assert(all.len() == 1 && all[0] == Diagnostic::UnsupportedItem);
            assert(all[0].spec_is_fatal());
        },
        Item::Enum(spec) => {
            let all = declaration_diagnostics(spec);
            assert(all == diagnostics_of(item));
            lemma_reported_exactly_when_due(spec, Diagnostic::MissingDataCases);
            lemma_reported_exactly_when_due(spec, Diagnostic::MalformedLayout);
            if !well_shaped(spec.cases@) {
                let fatal = if spec.cases@.len() < 2 {
                    Diagnostic::MissingDataCases
                } else {
                    Diagnostic::MalformedLayout
                };
                let k = choose|k: int| 0 <= k < all.len() && all[k] == fatal;
                assert(all[k].spec_is_fatal());
            } else {
                assert forall|k: int| 0 <= k < all.len() implies !(#[trigger] all[k]).spec_is_fatal(
                ) by {
                    lemma_reported_exactly_when_due(spec, all[k]);
                    assert(all.contains(all[k]));
                }
            }
        },
    }
}

/// No sequence without a conflict over `capability` counts as one.
proof fn lemma_no_conflict_counted(diagnostics: Seq<Diagnostic>, capability: Capability)
    requires
        forall|k: int|
            0 <= k < diagnostics.len() ==> !((#[trigger] diagnostics[k]) is ReservedCapability),
    ensures
        conflicts_naming(diagnostics, capability) == 0,
{
    diagnostics.lemma_all_neg_filter_empty(
        |diagnostic: Diagnostic| names_capability(diagnostic, capability),
    );
}

/// One derive request is answered by as many conflicts over a capability as
/// it has arguments that name it.
proof fn lemma_conflicts_of_one_modifier<S>(
    modifier: Modifier<S>,
    position: usize,
    capability: Capability,
    upto: int,
)
    requires
        0 <= upto <= modifier.arguments@.len(),
    ensures
        conflicts_naming(
            reserved_arguments(modifier, upto).map_values(
                |j: int| conflict_at(modifier, position, j),
            ),
            capability,
        ) == modifier.arguments@.take(upto).filter(
            |argument: String| reserved_capability(argument@) == Some(capability),
        ).len(),
    decreases upto,
{
    let picked = |diagnostic: Diagnostic| names_capability(diagnostic, capability);
    let named = |argument: String| reserved_capability(argument@) == Some(capability);
    let made = |j: int| conflict_at(modifier, position, j);
    if upto == 0 {
        reveal(Seq::filter);
        assert(reserved_arguments(modifier, 0).map_values(made).len() == 0);
        assert(modifier.arguments@.take(0).len() == 0);
    } else {
        let before = upto - 1;
        lemma_conflicts_of_one_modifier(modifier, position, capability, before);
        lemma_reserved_arguments_step(modifier, before);
        let argument = modifier.arguments@[before];
        assert(modifier.arguments@.take(upto) == modifier.arguments@.take(before).push(argument));
        modifier.arguments@.take(before).lemma_filter_push(argument, named);
        if reserved_capability(argument@) is Some {
            let shorter = reserved_arguments(modifier, before);
            shorter.lemma_push_map_commute(made, before);
            shorter.map_values(made).lemma_filter_push(made(before), picked);
        }
    }
}

/// The modifiers are answered by as many conflicts over a capability as they
/// request it.
proof fn lemma_conflicts_of_modifiers<S>(
    modifiers: Seq<Modifier<S>>,
    capability: Capability,
    upto: int,
)
    requires
        0 <= upto <= modifiers.len(),
    ensures
        conflicts_naming(diagnostics_by_modifier(modifiers, upto).flatten(), capability)
            == requests_for(modifiers.take(upto), capability),
    decreases upto,
{
    let picked = |diagnostic: Diagnostic| names_capability(diagnostic, capability);
    if upto == 0 {
        reveal(Seq::filter);
        assert(diagnostics_by_modifier(modifiers, 0).flatten().len() == 0);
        assert(modifiers.take(0).len() == 0);
    } else {
        let before = upto - 1;
        lemma_conflicts_of_modifiers(modifiers, capability, before);
        let sofar = diagnostics_by_modifier(modifiers, before);
        let modifier = modifiers[before];
        let next = modifier_diagnostics(modifier, before as usize);
        assert(diagnostics_by_modifier(modifiers, upto) == sofar.push(next));
        sofar.lemma_flatten_push(next);
        Seq::filter_distributes_over_add(sofar.flatten(), next, picked);
        assert(modifiers.take(upto).drop_last() == modifiers.take(before));
        assert(modifiers.take(upto).last() == modifier);
        if requests_capabilities(modifier) {
            lemma_conflicts_of_one_modifier(
                modifier,
                before as usize,
                capability,
                modifier.arguments@.len() as int,
            );
            assert(modifier.arguments@.take(modifier.arguments@.len() as int)
                == modifier.arguments@);
        } else {
            lemma_no_conflict_counted(next, capability);
        }
    }
}

/// For each reserved capability, a declaration gets as many conflicts over it
/// as its derive requests name it: one for a capability that is named once,
/// none for one that is not named. No conflict is fatal.
pub proof fn lemma_one_conflict_per_request<S, T>(spec: EnumSpec<S, T>, capability: Capability)
    ensures
        conflicts_naming(declaration_diagnostics(spec), capability) == requests_for(
            spec.modifiers@,
            capability,
        ),
        forall|k: int|
            0 <= k < declaration_diagnostics(spec).len() && (#[trigger] declaration_diagnostics(
                spec,
            )[k]) is ReservedCapability ==> declaration_diagnostics(spec)[k].spec_category()
                == Category::Conflict && !declaration_diagnostics(spec)[k].spec_is_fatal(),
{
    let picked = |diagnostic: Diagnostic| names_capability(diagnostic, capability);
    let generics = generics_diagnostics(spec.generics@);
    let modifiers = modifiers_diagnostics(spec.modifiers@);
    let data = data_diagnostics(spec.cases@);
    let shape = shape_diagnostics(spec.cases@);
    Seq::filter_distributes_over_add(generics + modifiers + data, shape, picked);
    Seq::filter_distributes_over_add(generics + modifiers, data, picked);
    Seq::filter_distributes_over_add(generics, modifiers, picked);
    lemma_no_conflict_counted(generics, capability);
    lemma_no_conflict_counted(shape, capability);
    assert forall|k: int| 0 <= k < data.len() implies !((#[trigger] data[k])
        is ReservedCapability) by {
        assert(data.contains(data[k]));
        lemma_data_diagnostics_by_position(spec.cases@, data[k]);
        let i = choose|i: int|
            1 <= i < spec.cases@.len() && (#[trigger] case_diagnostics(
                spec.cases@[i],
                i as usize,
            )).contains(data[k]);
        let reported = case_diagnostics(spec.cases@[i], i as usize);
        let at = choose|at: int| 0 <= at < reported.len() && reported[at] == data[k];
    }
    lemma_no_conflict_counted(data, capability);
    lemma_conflicts_of_modifiers(spec.modifiers@, capability, spec.modifiers@.len() as int);
    assert(spec.modifiers@.take(spec.modifiers@.len() as int) == spec.modifiers@);
}

/// Whether an artifact is produced is decided by the cases alone: what the
/// modifiers request, reserved or not, does not abort the synthesis.
pub proof fn lemma_requests_do_not_abort_synthesis<S, T>(
    spec: EnumSpec<S, T>,
    other: EnumSpec<S, T>,
)
    requires
        spec.cases@ == other.cases@,
    ensures
        synthesizable(Item::Enum(spec)) == synthesizable(Item::Enum(other)),
{
}

} // verus!
