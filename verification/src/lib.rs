//! Validation and synthesis of the `COUNT` and `VARIANTS` constants that the
//! `Enumly` derive attaches to an enumerated type.
//!
//! A [`TypeDescriptor`] says what the transformation reads of a type:
//! [`describe`] makes one from an item that `syn` has parsed. [`validate`]
//! holds it to the rules and [`synthesize`] builds the [`CodeFragment`] of a
//! type that passed; [`derive_enumly`] does both. [`CodeFragment::render`]
//! writes the fragment out as source text. A rejected type yields one
//! [`Diagnostic`] and nothing else.
//!
//! Every function is verified against the specification functions that stand
//! beside it; `laws` states what follows for all inputs. The calls into `syn`
//! and `quote` are the accessors in `parsed`, which are believed, not proved.

pub mod descriptor;
pub mod diagnostic;
pub mod laws;
pub mod parsed;
pub mod synthesis;
pub mod text;
pub mod transform;
pub mod validation;

pub use descriptor::{
    Generics, GenericsView, Marker, Shape, TargetKind, TypeDescriptor, TypeView,
    VariantDescriptor, VariantView,
};
pub use diagnostic::{Diagnostic, DiagnosticView, ErrorKind, Location, LocationView};
pub use validation::{non_exhaustive_error, validate, ValidatedType, ValidatedView};
pub use synthesis::{synthesize, CodeFragment, FragmentView};
pub use transform::derive_enumly;
pub use parsed::describe;
