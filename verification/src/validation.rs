//! The rules a type must keep before code is generated for it.

use vstd::prelude::*;
use crate::descriptor::{
    Generics, GenericsView, Marker, Shape, TargetKind, TypeDescriptor, TypeView, VariantView,
    variant_names,
};
use crate::diagnostic::{Diagnostic, DiagnosticView, ErrorKind, Location, LocationView, diagnostic_at};
use crate::text::texts;

verus! {

/// Whether the open-extension annotation is among `markers`.
pub open spec fn carries_open_extension(markers: Seq<Marker>) -> bool {
    markers.contains(Marker::OpenExtension)
}

/// The rule that a single variant violates, if any. The open-extension check
/// comes before the shape check.
pub open spec fn variant_violation(variant: VariantView) -> Option<ErrorKind> {
    if carries_open_extension(variant.markers) {
        Some(ErrorKind::OpenExtensionNotSupported)
    } else if variant.shape != Shape::Unit {
        Some(ErrorKind::NonUnitVariant)
    } else {
        None
    }
}

/// Whether the variant at `i` violates a rule and none before it does.
pub open spec fn is_first_offender(variants: Seq<VariantView>, i: int) -> bool {
    &&& 0 <= i < variants.len()
    &&& variant_violation(variants[i]) is Some
    &&& forall|j: int| 0 <= j < i ==> variant_violation(#[trigger] variants[j]) is None
}

/// The index of the first variant, in declaration order, that violates a rule.
pub open spec fn first_offender(variants: Seq<VariantView>) -> Option<int> {
    if exists|i: int| is_first_offender(variants, i) {
        Some(choose|i: int| is_first_offender(variants, i))
    } else {
        None
    }
}

/// A type that passed validation: its name, its generic signature and the
/// names of its variants in declaration order. Every variant is a unit
/// variant, so nothing else of it is left to carry.
#[derive(Clone, Debug, PartialEq, Eq)]
pub struct ValidatedType {
    pub name: String,
    pub generics: Generics,
    pub variants: Vec<String>,
}

/// The mathematical value of a [`ValidatedType`].
pub struct ValidatedView {
    pub name: Seq<char>,
    pub generics: GenericsView,
    pub variants: Seq<Seq<char>>,
}

impl View for ValidatedType {
    type V = ValidatedView;

    open spec fn view(&self) -> ValidatedView {
        ValidatedView {
            name: self.name@,
            generics: self.generics@,
            variants: texts(self.variants@),
        }
    }
}

/// What validation makes of a type: the first violated rule, in the order
/// target kind, annotation on the type, then variant by variant; or the
/// validated type when no rule is violated.
pub open spec fn validation_result(input: TypeView) -> Result<ValidatedView, DiagnosticView> {
    if input.kind != TargetKind::Enum {
        Err(diagnostic_at(ErrorKind::InvalidTargetKind, LocationView::Type))
    } else if carries_open_extension(input.markers) {
        Err(diagnostic_at(ErrorKind::OpenExtensionNotSupported, LocationView::Type))
    } else {
        match first_offender(input.variants) {
            Some(i) => Err(
                diagnostic_at(
                    variant_violation(input.variants[i])->0,
                    LocationView::Variant { index: i as nat, name: input.variants[i].name },
                ),
            ),
            None => Ok(
                ValidatedView {
                    name: input.name,
                    generics: input.generics,
                    variants: variant_names(input.variants),
                },
            ),
        }
    }
}

/// A variant that violates a rule, with none before it that does, is the
/// first offender.
pub proof fn lemma_first_offender_is(variants: Seq<VariantView>, i: int)
    requires
        is_first_offender(variants, i),
    ensures
        first_offender(variants) == Some(i),
{
    let k = choose|k: int| is_first_offender(variants, k);
    assert(is_first_offender(variants, k));
    if k < i {
        assert(variant_violation(variants[k]) is None);
    } else if i < k {
        assert(variant_violation(variants[i]) is None);
    }
}

/// Where every variant keeps the rules, there is no first offender.
pub proof fn lemma_no_offender(variants: Seq<VariantView>)
    requires
        forall|j: int| 0 <= j < variants.len() ==> variant_violation(#[trigger] variants[j]) is None,
    ensures
        first_offender(variants) is None,
{
}

/// Looks for the open-extension annotation among `markers`. When it is there,
/// the result is the diagnostic that rejects it, placed at `location`.
pub fn non_exhaustive_error(markers: &Vec<Marker>, location: Location) -> (r: Option<Diagnostic>)
    ensures
        match r {
            Some(d) => {
                &&& carries_open_extension(markers@)
                &&& d@ == diagnostic_at(ErrorKind::OpenExtensionNotSupported, location@)
                &&& d.wf()
            },
            None => !carries_open_extension(markers@),
        },
{
    let mut i: usize = 0;
    while i < markers.len()
        invariant
            i <= markers.len(),
            forall|j: int| 0 <= j < i ==> markers@[j] != Marker::OpenExtension,
        decreases markers.len() - i,
    {
        match markers[i] {
            Marker::OpenExtension => {
                return Some(Diagnostic::new(ErrorKind::OpenExtensionNotSupported, location));
            },
            Marker::Other => {},
        }
        i += 1;
    }
    None
}

/// Checks a type against the rules, in their fixed order, and stops at the
/// first one that is violated.
pub fn validate(input: &TypeDescriptor) -> (r: Result<ValidatedType, Diagnostic>)
    ensures
        match r {
            Ok(v) => validation_result(input@) == Ok::<ValidatedView, DiagnosticView>(v@),
            Err(d) => validation_result(input@) == Err::<ValidatedView, DiagnosticView>(d@)
                && d.wf(),
        },
{
    match input.kind {
        TargetKind::Enum => {},
        TargetKind::Struct | TargetKind::Union => {
            return Err(Diagnostic::new(ErrorKind::InvalidTargetKind, Location::Type));
        },
    }
    if let Some(d) = non_exhaustive_error(&input.markers, Location::Type) {
        return Err(d);
    }
    let ghost variants = input@.variants;
    let mut names: Vec<String> = Vec::new();
    let mut i: usize = 0;
    while i < input.variants.len()
        invariant
            i <= input.variants.len(),
            input@.kind == TargetKind::Enum,
            !carries_open_extension(input@.markers),
            variants == input@.variants,
            variants.len() == input.variants.len(),
            forall|j: int| 0 <= j < i ==> variant_violation(#[trigger] variants[j]) is None,
            names@.len() == i,
            forall|j: int| 0 <= j < i ==> (#[trigger] names@[j])@ == variants[j].name,
        decreases input.variants.len() - i,
    {
        let variant = &input.variants[i];
        let here = Location::Variant { index: i, name: variant.name.clone() };
        if let Some(d) = non_exhaustive_error(&variant.markers, here) {
            proof {
                lemma_first_offender_is(variants, i as int);
            }
            return Err(d);
        }
        match variant.shape {
            Shape::Unit => {
                names.push(variant.name.clone());
            },
            Shape::Positional | Shape::Labeled => {
                proof {
                    lemma_first_offender_is(variants, i as int);
                }
                let here = Location::Variant { index: i, name: variant.name.clone() };
                return Err(Diagnostic::new(ErrorKind::NonUnitVariant, here));
            },
        }
        i += 1;
    }
    let valid = ValidatedType {
        name: input.name.clone(),
        generics: input.generics.duplicate(),
        variants: names,
    };
    proof {
        lemma_no_offender(variants);
        assert(valid@.variants =~= variant_names(variants));
    }
    Ok(valid)
}

} // verus!
