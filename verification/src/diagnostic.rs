//! The single error that ends a transformation.

use vstd::prelude::*;

verus! {

/// The rule that a rejected type violates.
#[derive(Clone, Copy, Debug, PartialEq, Eq)]
pub enum ErrorKind {
    /// The input is not an enumerated type.
    InvalidTargetKind,
    /// The type or one of its variants is marked for open extension.
    OpenExtensionNotSupported,
    /// A variant carries positional or labeled fields.
    NonUnitVariant,
}

/// The part of the type description that a diagnostic points at.
#[derive(Clone, Debug, PartialEq, Eq)]
pub enum Location {
    /// The type declaration itself.
    Type,
    /// The variant at `index` in declaration order, by its name.
    Variant { index: usize, name: String },
}

/// The mathematical value of a [`Location`].
pub enum LocationView {
    Type,
    Variant { index: nat, name: Seq<char> },
}

impl View for Location {
    type V = LocationView;

    open spec fn view(&self) -> LocationView {
        match *self {
            Location::Type => LocationView::Type,
            Location::Variant { index, name } => LocationView::Variant {
                index: index as nat,
                name: name@,
            },
        }
    }
}

/// One compile-time error: which rule was violated, where, and the text to
/// report.
#[derive(Clone, Debug, PartialEq, Eq)]
pub struct Diagnostic {
    pub kind: ErrorKind,
    pub message: String,
    pub location: Location,
}

/// The mathematical value of a [`Diagnostic`].
pub struct DiagnosticView {
    pub kind: ErrorKind,
    pub message: Seq<char>,
    pub location: LocationView,
}

impl View for Diagnostic {
    type V = DiagnosticView;

    open spec fn view(&self) -> DiagnosticView {
        DiagnosticView { kind: self.kind, message: self.message@, location: self.location@ }
    }
}

/// The text reported for each kind of error.
pub open spec fn message_text(kind: ErrorKind) -> Seq<char> {
    match kind {
        ErrorKind::InvalidTargetKind => "Enumly can only be derived for enums"@,
        ErrorKind::OpenExtensionNotSupported =>
            "Enumly does not support #[non_exhaustive] enums or variants"@,
        ErrorKind::NonUnitVariant =>
            "Enumly only supports unit variants; tuple and struct variants are not allowed"@,
    }
}

/// The diagnostic of `kind` at `location`, with the text that belongs to `kind`.
pub open spec fn diagnostic_at(kind: ErrorKind, location: LocationView) -> DiagnosticView {
    DiagnosticView { kind, message: message_text(kind), location }
}

impl Diagnostic {
    /// A diagnostic is well formed when its message is the one of its kind.
    pub open spec fn wf(&self) -> bool {
        self.message@ == message_text(self.kind)
    }

    /// Builds the diagnostic for a violated rule at the place that violates it.
    pub fn new(kind: ErrorKind, location: Location) -> (r: Diagnostic)
        ensures
            r@ == diagnostic_at(kind, location@),
            r.wf(),
    {
        let message = match kind {
            ErrorKind::InvalidTargetKind => String::from_str(
                "Enumly can only be derived for enums",
            ),
            ErrorKind::OpenExtensionNotSupported => String::from_str(
                "Enumly does not support #[non_exhaustive] enums or variants",
            ),
            ErrorKind::NonUnitVariant => String::from_str(
                "Enumly only supports unit variants; tuple and struct variants are not allowed",
            ),
        };
        Diagnostic { kind, message, location }
    }
}

} // verus!
