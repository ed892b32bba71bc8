//! Reading a type description out of an item that `syn` has parsed.
//!
//! `syn`'s syntax tree is opaque to the verifier. Each accessor below is a
//! thin, unverified call into `syn` or `quote`; what it returns is given a
//! name, and [`describe`] is verified against those names.

use vstd::prelude::*;
use quote::ToTokens;
use crate::descriptor::{
    Generics, GenericsView, Marker, Shape, TargetKind, TypeDescriptor, TypeView,
    VariantDescriptor, VariantView,
};

verus! {

/// `syn::DeriveInput`, the parsed item that a derive macro receives.
#[verifier::external_type_specification]
#[verifier::external_body]
pub struct ExDeriveInput(syn::DeriveInput);

/// `syn::Variant`, one parsed member of an enum.
#[verifier::external_type_specification]
#[verifier::external_body]
pub struct ExVariant(syn::Variant);

/// `syn::Attribute`, one parsed `#[...]` annotation.
#[verifier::external_type_specification]
#[verifier::external_body]
pub struct ExAttribute(syn::Attribute);

/// Which of `syn::Data`'s three variants the item's `data` field holds.
pub uninterp spec fn item_kind(item: syn::DeriveInput) -> TargetKind;

/// The text of the item's `ident` field.
pub uninterp spec fn item_name(item: syn::DeriveInput) -> Seq<char>;

/// The text of the three pieces that `syn::Generics::split_for_impl` makes of
/// the item's `generics` field.
pub uninterp spec fn item_generics(item: syn::DeriveInput) -> GenericsView;

/// The item's `attrs` field.
pub uninterp spec fn item_attributes(item: syn::DeriveInput) -> Seq<syn::Attribute>;

/// The variants of an enum item in the order of the `variants` field of its
/// `syn::DataEnum`; empty for a struct or a union.
pub uninterp spec fn item_variants(item: syn::DeriveInput) -> Seq<syn::Variant>;

/// The text of the variant's `ident` field.
pub uninterp spec fn variant_name(variant: syn::Variant) -> Seq<char>;

/// Which of `syn::Fields`' three variants the variant's `fields` field holds.
pub uninterp spec fn variant_shape(variant: syn::Variant) -> Shape;

/// The variant's `attrs` field.
pub uninterp spec fn variant_attributes(variant: syn::Variant) -> Seq<syn::Attribute>;

/// What `syn::Path::is_ident` answers for the attribute's path and `name`.
pub uninterp spec fn attribute_is_ident(attribute: syn::Attribute, name: Seq<char>) -> bool;

/// Matches on the `data` field of a `syn::DeriveInput`: `Data::Enum`,
/// `Data::Struct` or `Data::Union`. The contract only names the outcome.
#[verifier::external_body]
fn kind_of(item: &syn::DeriveInput) -> (r: TargetKind)
    ensures
        r == item_kind(*item),
{
    match &item.data {
        syn::Data::Enum(_) => TargetKind::Enum,
        syn::Data::Struct(_) => TargetKind::Struct,
        syn::Data::Union(_) => TargetKind::Union,
    }
}

/// Calls `to_string` on the `ident` field of a `syn::DeriveInput`. The
/// contract only names the text.
#[verifier::external_body]
fn name_of(item: &syn::DeriveInput) -> (r: String)
    ensures
        r@ == item_name(*item),
{
    item.ident.to_string()
}

/// Calls `syn::Generics::split_for_impl` on the `generics` field of a
/// `syn::DeriveInput` and prints each of the three pieces with
/// `quote::ToTokens::to_token_stream` and `to_string`. The contract only names
/// the three texts.
#[verifier::external_body]
fn generics_of(item: &syn::DeriveInput) -> (r: Generics)
    ensures
        r@ == item_generics(*item),
{
    let (impl_params, type_args, where_clause) = item.generics.split_for_impl();
    Generics {
        impl_params: impl_params.to_token_stream().to_string(),
        type_args: type_args.to_token_stream().to_string(),
        where_clause: where_clause.to_token_stream().to_string(),
    }
}

/// Borrows the `attrs` field of a `syn::DeriveInput`. The contract only names
/// the attributes.
#[verifier::external_body]
fn attributes_of(item: &syn::DeriveInput) -> (r: &Vec<syn::Attribute>)
    ensures
        r@ == item_attributes(*item),
{
    &item.attrs
}

/// Collects what `syn::punctuated::Punctuated::iter` yields for the `variants`
/// field of an enum's `syn::DataEnum`, which is its items from first to last;
/// a struct or a union gives the empty vector. The contract only names the
/// variants, one for one and in that order.
#[verifier::external_body]
fn variants_of(item: &syn::DeriveInput) -> (r: Vec<&syn::Variant>)
    ensures
        r@.len() == item_variants(*item).len(),
        forall|i: int| 0 <= i < r@.len() ==> *#[trigger] r@[i] == item_variants(*item)[i],
{
    match &item.data {
        syn::Data::Enum(data) => data.variants.iter().collect(),
        syn::Data::Struct(_) => Vec::new(),
        syn::Data::Union(_) => Vec::new(),
    }
}

/// Calls `to_string` on the `ident` field of a `syn::Variant`. The contract
/// only names the text.
#[verifier::external_body]
fn variant_name_of(variant: &syn::Variant) -> (r: String)
    ensures
        r@ == variant_name(*variant),
{
    variant.ident.to_string()
}

/// Matches on the `fields` field of a `syn::Variant`: `Fields::Unit`,
/// `Fields::Unnamed` or `Fields::Named`. The contract only names the outcome.
#[verifier::external_body]
fn variant_shape_of(variant: &syn::Variant) -> (r: Shape)
    ensures
        r == variant_shape(*variant),
{
    match &variant.fields {
        syn::Fields::Unit => Shape::Unit,
        syn::Fields::Unnamed(_) => Shape::Positional,
        syn::Fields::Named(_) => Shape::Labeled,
    }
}

/// Borrows the `attrs` field of a `syn::Variant`. The contract only names the
/// attributes.
#[verifier::external_body]
fn variant_attributes_of(variant: &syn::Variant) -> (r: &Vec<syn::Attribute>)
    ensures
        r@ == variant_attributes(*variant),
{
    &variant.attrs
}

/// Calls `syn::Path::is_ident` on what `syn::Attribute::path` returns. The
/// contract only names the answer.
#[verifier::external_body]
fn attribute_is(attribute: &syn::Attribute, name: &str) -> (r: bool)
    ensures
        r == attribute_is_ident(*attribute, name@),
{
    attribute.path().is_ident(name)
}

/// The marker that stands for an attribute: the open-extension marker for
/// `#[non_exhaustive]`, `Other` for every other attribute.
pub open spec fn marker_of(attribute: syn::Attribute) -> Marker {
    if attribute_is_ident(attribute, "non_exhaustive"@) {
        Marker::OpenExtension
    } else {
        Marker::Other
    }
}

/// The markers that stand for a list of attributes, one for one.
pub open spec fn markers_of(attributes: Seq<syn::Attribute>) -> Seq<Marker> {
    attributes.map_values(|attribute: syn::Attribute| marker_of(attribute))
}

/// The description of a parsed variant.
pub open spec fn described_variant(variant: syn::Variant) -> VariantView {
    VariantView {
        name: variant_name(variant),
        shape: variant_shape(variant),
        markers: markers_of(variant_attributes(variant)),
    }
}

/// The description of a parsed item.
pub open spec fn described(item: syn::DeriveInput) -> TypeView {
    TypeView {
        kind: item_kind(item),
        name: item_name(item),
        generics: item_generics(item),
        variants: item_variants(item).map_values(|variant: syn::Variant| described_variant(variant)),
        markers: markers_of(item_attributes(item)),
    }
}

fn read_markers(attributes: &Vec<syn::Attribute>) -> (r: Vec<Marker>)
    ensures
        r@ == markers_of(attributes@),
{
    let mut markers: Vec<Marker> = Vec::new();
    let mut j: usize = 0;
    while j < attributes.len()
        invariant
            j <= attributes.len(),
            markers@.len() == j,
            forall|k: int| 0 <= k < j ==> #[trigger] markers@[k] == marker_of(attributes@[k]),
        decreases attributes.len() - j,
    {
        if attribute_is(&attributes[j], "non_exhaustive") {
            markers.push(Marker::OpenExtension);
        } else {
            markers.push(Marker::Other);
        }
        j += 1;
    }
    assert(markers@ =~= markers_of(attributes@));
    markers
}

/// Describes a parsed item: its kind, name and generic signature, its
/// attributes as markers, and each variant of an enum, in declaration order,
/// with its name, shape and markers. A struct or a union has no variants.
pub fn describe(item: &syn::DeriveInput) -> (r: TypeDescriptor)
    ensures
        r@ == described(*item),
{
    let parsed = variants_of(item);
    let mut variants: Vec<VariantDescriptor> = Vec::new();
    let mut i: usize = 0;
    while i < parsed.len()
        invariant
            i <= parsed.len(),
            parsed@.len() == item_variants(*item).len(),
            forall|k: int| 0 <= k < parsed@.len() ==> *#[trigger] parsed@[k] == item_variants(*item)[k],
            variants@.len() == i,
            forall|k: int|
                0 <= k < i ==> (#[trigger] variants@[k])@ == described_variant(
                    item_variants(*item)[k],
                ),
        decreases parsed.len() - i,
    {
        let variant = parsed[i];
        variants.push(
            VariantDescriptor {
                name: variant_name_of(variant),
                shape: variant_shape_of(variant),
                markers: read_markers(variant_attributes_of(variant)),
            },
        );
        i += 1;
    }
    let description = TypeDescriptor {
        kind: kind_of(item),
        name: name_of(item),
        generics: generics_of(item),
        variants,
        markers: read_markers(attributes_of(item)),
    };
    assert(description@.variants =~= described(*item).variants);
    description
}

} // verus!
