//! The description of a type declaration that the transformation works on.

use vstd::prelude::*;

verus! {

/// The kind of declaration a descriptor stands for.
#[derive(Clone, Copy, Debug, PartialEq, Eq)]
pub enum TargetKind {
    Enum,
    Struct,
    Union,
}

/// Whether a variant carries no data, unnamed fields or named fields.
#[derive(Clone, Copy, Debug, PartialEq, Eq)]
pub enum Shape {
    Unit,
    Positional,
    Labeled,
}

/// An annotation attached to a type or to one of its variants.
///
/// Only the open-extension annotation matters to the transformation; every
/// other annotation is kept as `Other` so that the attached set keeps its size
/// and order.
#[derive(Clone, Copy, Debug, PartialEq, Eq)]
pub enum Marker {
    OpenExtension,
    Other,
}

/// The generic signature of a type, already split into the three pieces of
/// source text that an inherent `impl` block needs.
///
/// For `enum E<T: Clone = u8> where T: Copy` these are `<T: Clone>`, `<T>` and
/// `where T: Copy`. Each piece is empty when the type has nothing to put there.
/// The pieces are carried through as they are; how the tokens inside a piece
/// are spaced is up to whoever describes the type.
#[derive(Clone, Debug, PartialEq, Eq)]
pub struct Generics {
    /// The parameters with their bounds, in angle brackets, without defaults.
    pub impl_params: String,
    /// The parameters' names alone, in angle brackets.
    pub type_args: String,
    /// The where-clause, starting with the keyword.
    pub where_clause: String,
}

/// The mathematical value of a [`Generics`].
pub struct GenericsView {
    pub impl_params: Seq<char>,
    pub type_args: Seq<char>,
    pub where_clause: Seq<char>,
}

impl View for Generics {
    type V = GenericsView;

    open spec fn view(&self) -> GenericsView {
        GenericsView {
            impl_params: self.impl_params@,
            type_args: self.type_args@,
            where_clause: self.where_clause@,
        }
    }
}

impl Generics {
    /// The signature of a type without generic parameters.
    pub fn none() -> (r: Generics)
        ensures
            r@.impl_params.len() == 0,
            r@.type_args.len() == 0,
            r@.where_clause.len() == 0,
    {
        Generics {
            impl_params: String::new(),
            type_args: String::new(),
            where_clause: String::new(),
        }
    }

    /// A copy with the same three pieces of text.
    pub fn duplicate(&self) -> (r: Generics)
        ensures
            r@ == self@,
    {
        Generics {
            impl_params: self.impl_params.clone(),
            type_args: self.type_args.clone(),
            where_clause: self.where_clause.clone(),
        }
    }
}

/// One member of an enumerated type.
#[derive(Clone, Debug, PartialEq, Eq)]
pub struct VariantDescriptor {
    pub name: String,
    pub shape: Shape,
    pub markers: Vec<Marker>,
}

/// The mathematical value of a [`VariantDescriptor`].
pub struct VariantView {
    pub name: Seq<char>,
    pub shape: Shape,
    pub markers: Seq<Marker>,
}

impl View for VariantDescriptor {
    type V = VariantView;

    open spec fn view(&self) -> VariantView {
        VariantView { name: self.name@, shape: self.shape, markers: self.markers@ }
    }
}

/// The type under transformation.
///
/// `variants` keeps the declaration order; it may be empty.
#[derive(Clone, Debug, PartialEq, Eq)]
pub struct TypeDescriptor {
    pub kind: TargetKind,
    pub name: String,
    pub generics: Generics,
    pub variants: Vec<VariantDescriptor>,
    pub markers: Vec<Marker>,
}

/// The mathematical value of a [`TypeDescriptor`].
pub struct TypeView {
    pub kind: TargetKind,
    pub name: Seq<char>,
    pub generics: GenericsView,
    pub variants: Seq<VariantView>,
    pub markers: Seq<Marker>,
}

impl View for TypeDescriptor {
    type V = TypeView;

    open spec fn view(&self) -> TypeView {
        TypeView {
            kind: self.kind,
            name: self.name@,
            generics: self.generics@,
            variants: self.variants@.map_values(|v: VariantDescriptor| v@),
            markers: self.markers@,
        }
    }
}

/// The names of `variants`, in the same order.
pub open spec fn variant_names(variants: Seq<VariantView>) -> Seq<Seq<char>> {
    variants.map_values(|v: VariantView| v.name)
}

} // verus!
