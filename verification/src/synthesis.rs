//! From a validated type to the two constants attached to it.

use vstd::prelude::*;
use crate::descriptor::{Generics, GenericsView};
use crate::text::{decimal, joined, push_decimal, push_joined, push_spaced, spaced, texts};
use crate::validation::{ValidatedType, ValidatedView};

verus! {

/// The generated code for one type: an inherent `impl` block, scoped by the
/// type's own generic signature, that holds the count of the variants and the
/// list of them.
#[derive(Clone, Debug, PartialEq, Eq)]
pub struct CodeFragment {
    /// The type that the constants are attached to.
    pub target: String,
    /// The generic signature that scopes the block.
    pub generics: Generics,
    /// The value of `COUNT`.
    pub count: usize,
    /// The elements of `VARIANTS`: one expression per variant, in declaration
    /// order.
    pub entries: Vec<String>,
}

/// The mathematical value of a [`CodeFragment`].
pub struct FragmentView {
    pub target: Seq<char>,
    pub generics: GenericsView,
    pub count: nat,
    pub entries: Seq<Seq<char>>,
}

impl View for CodeFragment {
    type V = FragmentView;

    open spec fn view(&self) -> FragmentView {
        FragmentView {
            target: self.target@,
            generics: self.generics@,
            count: self.count as nat,
            entries: texts(self.entries@),
        }
    }
}

/// The expression that stands for a variant inside the type's own `impl`.
pub open spec fn entry_text(variant: Seq<char>) -> Seq<char> {
    "Self::"@ + variant
}

/// The fragment for a validated type: the count is the number of variants, and
/// the list holds one entry per variant in the same order.
pub open spec fn synthesized(valid: ValidatedView) -> FragmentView {
    FragmentView {
        target: valid.name,
        generics: valid.generics,
        count: valid.variants.len(),
        entries: valid.variants.map_values(|name: Seq<char>| entry_text(name)),
    }
}

/// The first line of the block, up to its name and signature:
/// `impl<..> Name<..> where ..`, each piece that is there after one space.
pub open spec fn header_text(fragment: FragmentView) -> Seq<char> {
    "impl"@ + spaced(fragment.generics.impl_params) + " "@ + fragment.target + spaced(
        fragment.generics.type_args,
    ) + spaced(fragment.generics.where_clause)
}

/// The line that declares `COUNT`.
pub open spec fn count_line(fragment: FragmentView) -> Seq<char> {
    "    pub const COUNT: usize = "@ + decimal(fragment.count) + ";\n"@
}

/// The line that declares `VARIANTS`.
pub open spec fn list_line(fragment: FragmentView) -> Seq<char> {
    "    pub const VARIANTS: &'static [Self] = &["@ + joined(fragment.entries, ", "@) + "];\n"@
}

/// The source text of a fragment: one inherent `impl` block that holds the
/// two constants.
pub open spec fn rendered(fragment: FragmentView) -> Seq<char> {
    header_text(fragment) + " {\n"@ + count_line(fragment) + list_line(fragment) + "}\n"@
}

impl CodeFragment {
    /// The count is the length of the list.
    pub open spec fn wf(&self) -> bool {
        self.count == self.entries@.len()
    }

    /// Writes the fragment out as source text.
    pub fn render(&self) -> (r: String)
        ensures
            r@ == rendered(self@),
    {
        let mut out = String::from_str("impl");
        push_spaced(&mut out, self.generics.impl_params.as_str());
        out.append(" ");
        out.append(self.target.as_str());
        push_spaced(&mut out, self.generics.type_args.as_str());
        push_spaced(&mut out, self.generics.where_clause.as_str());
        out.append(" {\n");
        out.append("    pub const COUNT: usize = ");
        push_decimal(&mut out, self.count);
        out.append(";\n");
        out.append("    pub const VARIANTS: &'static [Self] = &[");
        push_joined(&mut out, &self.entries, ", ");
        out.append("];\n");
        out.append("}\n");
        assert(out@ =~= rendered(self@));
        out
    }
}

/// Builds the fragment for a validated type. This never fails.
pub fn synthesize(valid: ValidatedType) -> (r: CodeFragment)
    ensures
        r@ == synthesized(valid@),
        r.wf(),
{
    let count = valid.variants.len();
    let mut entries: Vec<String> = Vec::new();
    let mut i: usize = 0;
    while i < valid.variants.len()
        invariant
            i <= valid.variants.len(),
            entries@.len() == i,
            forall|j: int|
                0 <= j < i ==> (#[trigger] entries@[j])@ == entry_text(valid.variants@[j]@),
        decreases valid.variants.len() - i,
    {
        let mut entry = String::from_str("Self::");
        entry.append(valid.variants[i].as_str());
        entries.push(entry);
        i += 1;
    }
    let fragment = CodeFragment {
        target: valid.name,
        generics: valid.generics,
        count,
        entries,
    };
    assert(fragment@.entries =~= synthesized(valid@).entries);
    fragment
}

} // verus!
