//! The whole transformation: validation, then synthesis.

use vstd::prelude::*;
use crate::descriptor::{TypeDescriptor, TypeView};
use crate::diagnostic::{Diagnostic, DiagnosticView};
use crate::synthesis::{synthesize, synthesized, CodeFragment, FragmentView};
use crate::validation::{validate, validation_result};

verus! {

/// What the transformation makes of a type: the fragment of the validated
/// type, or the diagnostic of the first violated rule.
pub open spec fn derivation(input: TypeView) -> Result<FragmentView, DiagnosticView> {
    match validation_result(input) {
        Ok(valid) => Ok(synthesized(valid)),
        Err(diagnostic) => Err(diagnostic),
    }
}

/// Validates the described type and, if it passes, generates the code that
/// attaches `COUNT` and `VARIANTS` to it. A rejected type yields exactly one
/// diagnostic and no code.
pub fn derive_enumly(input: &TypeDescriptor) -> (r: Result<CodeFragment, Diagnostic>)
    ensures
        match r {
            Ok(fragment) => derivation(input@) == Ok::<FragmentView, DiagnosticView>(fragment@)
                && fragment.wf(),
            Err(diagnostic) => derivation(input@) == Err::<FragmentView, DiagnosticView>(
                diagnostic@,
            ) && diagnostic.wf(),
        },
{
    match validate(input) {
        Ok(valid) => Ok(synthesize(valid)),
        Err(diagnostic) => Err(diagnostic),
    }
}

} // verus!
