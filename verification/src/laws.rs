//! What holds of the transformation on every input.

use vstd::prelude::*;
use vstd::seq_lib::seq_to_set_is_finite;
use vstd::set_lib::{lemma_int_range, lemma_subset_equality, set_int_range};
use crate::descriptor::{Shape, TargetKind, TypeDescriptor, TypeView, VariantView};
use crate::diagnostic::{DiagnosticView, ErrorKind, LocationView, diagnostic_at};
use crate::synthesis::{entry_text, rendered, FragmentView};
use crate::transform::derivation;
use crate::validation::{
    carries_open_extension, first_offender, is_first_offender, lemma_first_offender_is,
    lemma_no_offender, variant_violation,
};

verus! {

/// Whether a type keeps every rule: it is an enumerated type, neither it nor
/// any variant carries the open-extension annotation, and every variant is a
/// unit variant.
pub open spec fn is_plain_enum(input: TypeView) -> bool {
    &&& input.kind == TargetKind::Enum
    &&& !carries_open_extension(input.markers)
    &&& forall|i: int|
        0 <= i < input.variants.len() ==> {
            &&& !carries_open_extension((#[trigger] input.variants[i]).markers)
            &&& input.variants[i].shape == Shape::Unit
        }
}

/// Whether `order` names each index below `n` exactly once: it has `n`
/// entries, each an index below `n`, and none of them twice.
pub open spec fn is_reordering(order: Seq<int>, n: nat) -> bool {
    &&& order.len() == n
    &&& forall|i: int| 0 <= i < n ==> 0 <= #[trigger] order[i] < n
    &&& order.no_duplicates()
}

/// The items in the order that `order` gives: the item at `i` is the one that
/// stood at `order[i]`.
pub open spec fn reordered<T>(items: Seq<T>, order: Seq<int>) -> Seq<T> {
    Seq::new(order.len(), |i: int| items[order[i]])
}

/// The same type with its variants replaced.
pub open spec fn with_variants(input: TypeView, variants: Seq<VariantView>) -> TypeView {
    TypeView { variants, ..input }
}

/// A type is accepted exactly when it keeps every rule.
pub proof fn law_accepts_plain_enums_only(input: TypeView)
    ensures
        derivation(input) is Ok <==> is_plain_enum(input),
{
    if is_plain_enum(input) {
        lemma_no_offender(input.variants);
    } else if input.kind == TargetKind::Enum && !carries_open_extension(input.markers) {
        lemma_some_offender(input.variants);
    }
}

/// Where some variant violates a rule, there is a first one that does.
proof fn lemma_some_offender(variants: Seq<VariantView>)
    requires
        exists|i: int| 0 <= i < variants.len() && variant_violation(#[trigger] variants[i]) is Some,
    ensures
        first_offender(variants) is Some,
{
    let i = choose|i: int| 0 <= i < variants.len() && variant_violation(#[trigger] variants[i]) is Some;
    lemma_offender_at_or_before(variants, i);
}

/// Where the variant at `i` violates a rule, the first offender stands at `i`
/// or before it.
proof fn lemma_offender_at_or_before(variants: Seq<VariantView>, i: int)
    requires
        0 <= i < variants.len(),
        variant_violation(variants[i]) is Some,
    ensures
        first_offender(variants) is Some,
        first_offender(variants)->0 <= i,
    decreases i,
{
    if forall|j: int| 0 <= j < i ==> variant_violation(#[trigger] variants[j]) is None {
        assert(is_first_offender(variants, i));
        lemma_first_offender_is(variants, i);
    } else {
        let j = choose|j: int| 0 <= j < i && variant_violation(#[trigger] variants[j]) is Some;
        lemma_offender_at_or_before(variants, j);
    }
}

/// A reordering leaves no index out.
proof fn lemma_reordering_names_every_index(order: Seq<int>, n: nat, k: int)
    requires
        is_reordering(order, n),
        0 <= k < n,
    ensures
        order.contains(k),
{
    let used = order.to_set();
    let all = set_int_range(0, n as int);
    order.unique_seq_to_set();
    seq_to_set_is_finite(order);
    lemma_int_range(0, n as int);
    assert forall|x: int| used.contains(x) implies all.contains(x) by {
        let i = choose|i: int| 0 <= i < order.len() && order[i] == x;
        assert(0 <= order[i] < n);
    }
    lemma_subset_equality(used, all);
    assert(all.contains(k));
}

/// For an enumerated type with N unit variants and no open-extension
/// annotation, the count is N and the list has N entries, one per variant, in
/// declaration order. This holds for N = 0 too.
pub proof fn law_count_and_list(input: TypeView)
    requires
        is_plain_enum(input),
    ensures
        derivation(input) is Ok,
        derivation(input)->Ok_0.count == input.variants.len(),
        derivation(input)->Ok_0.entries.len() == input.variants.len(),
        forall|i: int|
            0 <= i < input.variants.len() ==> #[trigger] derivation(input)->Ok_0.entries[i]
                == entry_text(input.variants[i].name),
{
    law_accepts_plain_enums_only(input);
}

/// The outcome depends on the described type alone: two descriptors with the
/// same value give the same fragment, and so the same text character for
/// character, or the same diagnostic.
pub proof fn law_same_input_same_output(a: TypeDescriptor, b: TypeDescriptor)
    requires
        a@ == b@,
    ensures
        derivation(a@) == derivation(b@),
        derivation(a@) is Ok ==> rendered(derivation(a@)->Ok_0) == rendered(derivation(b@)->Ok_0),
{
}

/// Reordering the variants of a type reorders the list in the same way and
/// leaves the count as it was; a rejected type stays rejected.
pub proof fn law_order_is_preserved(input: TypeView, order: Seq<int>)
    requires
        is_reordering(order, input.variants.len()),
    ensures
        derivation(with_variants(input, reordered(input.variants, order))) is Ok <==> derivation(
            input,
        ) is Ok,
        derivation(input) is Ok ==> {
            let before = derivation(input)->Ok_0;
            let after = derivation(with_variants(input, reordered(input.variants, order)))->Ok_0;
            &&& after.entries == reordered(before.entries, order)
            &&& after.count == before.count
            &&& after.target == before.target
            &&& after.generics == before.generics
        },
{
    let moved = with_variants(input, reordered(input.variants, order));
    law_accepts_plain_enums_only(input);
    law_accepts_plain_enums_only(moved);
    if is_plain_enum(input) {
        assert(is_plain_enum(moved)) by {
            assert forall|i: int| 0 <= i < moved.variants.len() implies {
                &&& !carries_open_extension((#[trigger] moved.variants[i]).markers)
                &&& moved.variants[i].shape == Shape::Unit
            } by {
                assert(moved.variants[i] == input.variants[order[i]]);
            }
        }
        law_count_and_list(input);
        law_count_and_list(moved);
        let before = derivation(input)->Ok_0;
        let after = derivation(moved)->Ok_0;
        assert(after.entries =~= reordered(before.entries, order));
    }
    if is_plain_enum(moved) {
        assert(is_plain_enum(input)) by {
            assert forall|k: int| 0 <= k < input.variants.len() implies {
                &&& !carries_open_extension((#[trigger] input.variants[k]).markers)
                &&& input.variants[k].shape == Shape::Unit
            } by {
                lemma_reordering_names_every_index(order, input.variants.len(), k);
                let i = choose|i: int| 0 <= i < order.len() && order[i] == k;
                assert(moved.variants[i] == input.variants[k]);
            }
        }
    }
}

/// An enumerated type whose first non-unit variant stands at `k` is rejected
/// as `NonUnitVariant` at that variant, by its name, provided that the
/// open-extension annotation is neither on the type nor on a variant up to `k`.
pub proof fn law_first_non_unit_variant_is_named(input: TypeView, k: int)
    requires
        input.kind == TargetKind::Enum,
        !carries_open_extension(input.markers),
        0 <= k < input.variants.len(),
        input.variants[k].shape != Shape::Unit,
        forall|j: int| 0 <= j < k ==> (#[trigger] input.variants[j]).shape == Shape::Unit,
        forall|j: int| 0 <= j <= k ==> !carries_open_extension((#[trigger] input.variants[j]).markers),
    ensures
        derivation(input) == Err::<FragmentView, DiagnosticView>(
            diagnostic_at(
                ErrorKind::NonUnitVariant,
                LocationView::Variant { index: k as nat, name: input.variants[k].name },
            ),
        ),
{
    assert(is_first_offender(input.variants, k));
    lemma_first_offender_is(input.variants, k);
}

/// An enumerated type that carries the open-extension annotation is rejected
/// as `OpenExtensionNotSupported` at the type, whatever its variants are.
pub proof fn law_marked_type_is_rejected(input: TypeView)
    requires
        input.kind == TargetKind::Enum,
        carries_open_extension(input.markers),
    ensures
        derivation(input) == Err::<FragmentView, DiagnosticView>(
            diagnostic_at(ErrorKind::OpenExtensionNotSupported, LocationView::Type),
        ),
{
}

/// An unmarked enumerated type whose first variant with the open-extension
/// annotation stands at `m` is rejected as `OpenExtensionNotSupported` at that
/// variant, by its name, provided that every variant before `m` is a unit
/// variant. The shape of the variant at `m` itself does not matter.
pub proof fn law_marked_variant_is_rejected(input: TypeView, m: int)
    requires
        input.kind == TargetKind::Enum,
        !carries_open_extension(input.markers),
        0 <= m < input.variants.len(),
        carries_open_extension(input.variants[m].markers),
        forall|j: int| 0 <= j < m ==> !carries_open_extension((#[trigger] input.variants[j]).markers),
        forall|j: int| 0 <= j < m ==> (#[trigger] input.variants[j]).shape == Shape::Unit,
    ensures
        derivation(input) == Err::<FragmentView, DiagnosticView>(
            diagnostic_at(
                ErrorKind::OpenExtensionNotSupported,
                LocationView::Variant { index: m as nat, name: input.variants[m].name },
            ),
        ),
{
    assert(is_first_offender(input.variants, m));
    lemma_first_offender_is(input.variants, m);
}

/// An enumerated type is rejected as `OpenExtensionNotSupported` when it
/// carries the open-extension annotation itself, or when one of its variants
/// does and every variant before that one is a unit variant. In particular
/// this holds when all variants are unit variants.
pub proof fn law_open_extension_is_rejected(input: TypeView)
    requires
        input.kind == TargetKind::Enum,
        carries_open_extension(input.markers) || exists|m: int|
            {
                &&& 0 <= m < input.variants.len()
                &&& carries_open_extension((#[trigger] input.variants[m]).markers)
                &&& forall|j: int| 0 <= j < m ==> (#[trigger] input.variants[j]).shape == Shape::Unit
            },
    ensures
        derivation(input) is Err,
        derivation(input)->Err_0.kind == ErrorKind::OpenExtensionNotSupported,
{
    if !carries_open_extension(input.markers) {
        let m = choose|m: int|
            {
                &&& 0 <= m < input.variants.len()
                &&& carries_open_extension((#[trigger] input.variants[m]).markers)
                &&& forall|j: int| 0 <= j < m ==> (#[trigger] input.variants[j]).shape == Shape::Unit
            };
        lemma_offender_at_or_before(input.variants, m);
        let first = first_offender(input.variants)->0;
        assert(is_first_offender(input.variants, first));
        if first < m {
            assert(input.variants[first].shape == Shape::Unit);
        }
    }
}

/// A type that is not an enumerated type is rejected as `InvalidTargetKind`
/// at the type, whatever its annotations and variants are.
pub proof fn law_other_kinds_are_rejected(input: TypeView)
    requires
        input.kind != TargetKind::Enum,
    ensures
        derivation(input) == Err::<FragmentView, DiagnosticView>(
            diagnostic_at(ErrorKind::InvalidTargetKind, LocationView::Type),
        ),
{
}

/// The fragment of an accepted type is attached to that type and scoped by
/// the generic signature that the type was described with, unchanged.
pub proof fn law_signature_is_kept(input: TypeView)
    requires
        derivation(input) is Ok,
    ensures
        derivation(input)->Ok_0.target == input.name,
        derivation(input)->Ok_0.generics == input.generics,
{
}

} // verus!
