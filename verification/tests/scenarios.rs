use enumly::{
    derive_enumly, CodeFragment, Diagnostic, ErrorKind, Generics, Location, Marker, Shape,
    TargetKind, TypeDescriptor, VariantDescriptor,
};

fn variant(name: &str, shape: Shape, markers: Vec<Marker>) -> VariantDescriptor {
    VariantDescriptor { name: name.to_string(), shape, markers }
}

fn unit(name: &str) -> VariantDescriptor {
    variant(name, Shape::Unit, vec![])
}

fn plain_enum(name: &str, variants: Vec<VariantDescriptor>) -> TypeDescriptor {
    TypeDescriptor {
        kind: TargetKind::Enum,
        name: name.to_string(),
        generics: Generics::none(),
        variants,
        markers: vec![],
    }
}

fn at_variant(index: usize, name: &str) -> Location {
    Location::Variant { index, name: name.to_string() }
}

const NOT_AN_ENUM: &str = "Enumly can only be derived for enums";
const OPEN_EXTENSION: &str = "Enumly does not support #[non_exhaustive] enums or variants";
const NOT_UNIT: &str =
    "Enumly only supports unit variants; tuple and struct variants are not allowed";

#[test]
fn color_has_three_variants_in_declaration_order() {
    let color = plain_enum("Color", vec![unit("Red"), unit("Green"), unit("Blue")]);
    let fragment = derive_enumly(&color).unwrap();
    assert_eq!(fragment.count, 3);
    assert_eq!(
        fragment.entries,
        vec!["Self::Red".to_string(), "Self::Green".to_string(), "Self::Blue".to_string()]
    );
    assert_eq!(fragment.target, "Color");
    assert_eq!(fragment.generics, Generics::none());
}

#[test]
fn color_renders_as_one_impl_block() {
    let color = plain_enum("Color", vec![unit("Red"), unit("Green"), unit("Blue")]);
    let text = derive_enumly(&color).unwrap().render();
    assert_eq!(
        text,
        "impl Color {\n    pub const COUNT: usize = 3;\n    pub const VARIANTS: &'static [Self] = &[Self::Red, Self::Green, Self::Blue];\n}\n"
    );
}

#[test]
fn empty_enum_has_count_zero_and_an_empty_list() {
    let empty = plain_enum("Empty", vec![]);
    let fragment = derive_enumly(&empty).unwrap();
    assert_eq!(fragment.count, 0);
    assert_eq!(fragment.entries, Vec::<String>::new());
    assert_eq!(
        fragment.render(),
        "impl Empty {\n    pub const COUNT: usize = 0;\n    pub const VARIANTS: &'static [Self] = &[];\n}\n"
    );
}

#[test]
fn single_variant_list_has_no_separator() {
    let one = plain_enum("One", vec![unit("Only")]);
    let fragment = derive_enumly(&one).unwrap();
    assert_eq!(fragment.count, 1);
    assert_eq!(
        fragment.render(),
        "impl One {\n    pub const COUNT: usize = 1;\n    pub const VARIANTS: &'static [Self] = &[Self::Only];\n}\n"
    );
}

#[test]
fn first_non_unit_variant_is_named() {
    let bad = plain_enum(
        "Bad",
        vec![variant("Tuple", Shape::Positional, vec![]), variant("Struct", Shape::Labeled, vec![])],
    );
    let diagnostic = derive_enumly(&bad).unwrap_err();
    assert_eq!(
        diagnostic,
        Diagnostic {
            kind: ErrorKind::NonUnitVariant,
            message: NOT_UNIT.to_string(),
            location: at_variant(0, "Tuple"),
        }
    );
}

#[test]
fn labeled_variant_after_unit_variants_is_named() {
    let bad = plain_enum(
        "Bad",
        vec![unit("A"), unit("B"), variant("Struct", Shape::Labeled, vec![]), unit("C")],
    );
    let diagnostic = derive_enumly(&bad).unwrap_err();
    assert_eq!(diagnostic.kind, ErrorKind::NonUnitVariant);
    assert_eq!(diagnostic.location, at_variant(2, "Struct"));
    assert_eq!(diagnostic.message, NOT_UNIT);
}

#[test]
fn marked_type_is_rejected() {
    let mut open = plain_enum("Open", vec![unit("A")]);
    open.markers = vec![Marker::OpenExtension];
    let diagnostic = derive_enumly(&open).unwrap_err();
    assert_eq!(
        diagnostic,
        Diagnostic {
            kind: ErrorKind::OpenExtensionNotSupported,
            message: OPEN_EXTENSION.to_string(),
            location: Location::Type,
        }
    );
}

#[test]
fn marked_type_is_rejected_among_other_markers() {
    let mut open = plain_enum("Open", vec![unit("A")]);
    open.markers = vec![Marker::Other, Marker::Other, Marker::OpenExtension, Marker::Other];
    let diagnostic = derive_enumly(&open).unwrap_err();
    assert_eq!(diagnostic.kind, ErrorKind::OpenExtensionNotSupported);
    assert_eq!(diagnostic.location, Location::Type);
}

#[test]
fn other_markers_do_not_reject() {
    let mut plain = plain_enum(
        "Plain",
        vec![variant("A", Shape::Unit, vec![Marker::Other]), unit("B")],
    );
    plain.markers = vec![Marker::Other, Marker::Other];
    let fragment = derive_enumly(&plain).unwrap();
    assert_eq!(fragment.count, 2);
    assert_eq!(fragment.entries, vec!["Self::A".to_string(), "Self::B".to_string()]);
}

#[test]
fn marked_variant_is_named() {
    let open = plain_enum(
        "Mixed",
        vec![unit("A"), variant("B", Shape::Unit, vec![Marker::OpenExtension]), unit("C")],
    );
    let diagnostic = derive_enumly(&open).unwrap_err();
    assert_eq!(
        diagnostic,
        Diagnostic {
            kind: ErrorKind::OpenExtensionNotSupported,
            message: OPEN_EXTENSION.to_string(),
            location: at_variant(1, "B"),
        }
    );
}

#[test]
fn marked_type_wins_over_its_variants() {
    let mut open = plain_enum(
        "Open",
        vec![
            variant("Tuple", Shape::Positional, vec![]),
            variant("B", Shape::Unit, vec![Marker::OpenExtension]),
        ],
    );
    open.markers = vec![Marker::OpenExtension];
    let diagnostic = derive_enumly(&open).unwrap_err();
    assert_eq!(diagnostic.kind, ErrorKind::OpenExtensionNotSupported);
    assert_eq!(diagnostic.location, Location::Type);
}

#[test]
fn marked_non_unit_variant_reports_the_marker() {
    let both = plain_enum(
        "Both",
        vec![unit("A"), variant("T", Shape::Positional, vec![Marker::Other, Marker::OpenExtension])],
    );
    let diagnostic = derive_enumly(&both).unwrap_err();
    assert_eq!(diagnostic.kind, ErrorKind::OpenExtensionNotSupported);
    assert_eq!(diagnostic.location, at_variant(1, "T"));
}

#[test]
fn non_unit_variant_before_a_marked_one_is_reported_first() {
    let mixed = plain_enum(
        "Mixed",
        vec![
            variant("Tuple", Shape::Positional, vec![]),
            variant("B", Shape::Unit, vec![Marker::OpenExtension]),
        ],
    );
    let diagnostic = derive_enumly(&mixed).unwrap_err();
    assert_eq!(diagnostic.kind, ErrorKind::NonUnitVariant);
    assert_eq!(diagnostic.location, at_variant(0, "Tuple"));
}

#[test]
fn marked_variant_before_a_non_unit_one_is_reported_first() {
    let mixed = plain_enum(
        "Mixed",
        vec![
            variant("A", Shape::Unit, vec![Marker::OpenExtension]),
            variant("Tuple", Shape::Positional, vec![]),
        ],
    );
    let diagnostic = derive_enumly(&mixed).unwrap_err();
    assert_eq!(diagnostic.kind, ErrorKind::OpenExtensionNotSupported);
    assert_eq!(diagnostic.location, at_variant(0, "A"));
}

#[test]
fn struct_is_rejected() {
    let mut not_enum = plain_enum("Point", vec![]);
    not_enum.kind = TargetKind::Struct;
    let diagnostic = derive_enumly(&not_enum).unwrap_err();
    assert_eq!(
        diagnostic,
        Diagnostic {
            kind: ErrorKind::InvalidTargetKind,
            message: NOT_AN_ENUM.to_string(),
            location: Location::Type,
        }
    );
}

#[test]
fn union_is_rejected() {
    let mut not_enum = plain_enum("Bits", vec![]);
    not_enum.kind = TargetKind::Union;
    let diagnostic = derive_enumly(&not_enum).unwrap_err();
    assert_eq!(diagnostic.kind, ErrorKind::InvalidTargetKind);
    assert_eq!(diagnostic.location, Location::Type);
    assert_eq!(diagnostic.message, NOT_AN_ENUM);
}

#[test]
fn target_kind_is_checked_before_markers_and_variants() {
    let mut not_enum = plain_enum(
        "Odd",
        vec![
            variant("Tuple", Shape::Positional, vec![]),
            variant("B", Shape::Unit, vec![Marker::OpenExtension]),
        ],
    );
    not_enum.kind = TargetKind::Struct;
    not_enum.markers = vec![Marker::OpenExtension];
    let diagnostic = derive_enumly(&not_enum).unwrap_err();
    assert_eq!(diagnostic.kind, ErrorKind::InvalidTargetKind);
    assert_eq!(diagnostic.location, Location::Type);
}

#[test]
fn same_input_gives_the_same_output() {
    let color = plain_enum("Color", vec![unit("Red"), unit("Green"), unit("Blue")]);
    let first = derive_enumly(&color).unwrap();
    let second = derive_enumly(&color.clone()).unwrap();
    assert_eq!(first, second);
    assert_eq!(first.render().into_bytes(), second.render().into_bytes());

    let bad = plain_enum("Bad", vec![variant("Tuple", Shape::Positional, vec![])]);
    assert_eq!(derive_enumly(&bad), derive_enumly(&bad.clone()));
}

#[test]
fn reordering_variants_reorders_the_list() {
    let declared = plain_enum("Color", vec![unit("Red"), unit("Green"), unit("Blue")]);
    let moved = plain_enum("Color", vec![unit("Blue"), unit("Red"), unit("Green")]);
    let before = derive_enumly(&declared).unwrap();
    let after = derive_enumly(&moved).unwrap();
    assert_eq!(after.count, before.count);
    assert_eq!(
        after.entries,
        vec![before.entries[2].clone(), before.entries[0].clone(), before.entries[1].clone()]
    );
    assert_eq!(
        after.entries,
        vec!["Self::Blue".to_string(), "Self::Red".to_string(), "Self::Green".to_string()]
    );
}

#[test]
fn generic_signature_scopes_the_block() {
    let mut wrapper = plain_enum("Wrapper", vec![unit("A"), unit("B")]);
    wrapper.generics = Generics {
        impl_params: "<T: Clone>".to_string(),
        type_args: "<T>".to_string(),
        where_clause: "where T: Copy".to_string(),
    };
    let fragment = derive_enumly(&wrapper).unwrap();
    assert_eq!(fragment.generics, wrapper.generics);
    assert_eq!(
        fragment.render(),
        "impl <T: Clone> Wrapper <T> where T: Copy {\n    pub const COUNT: usize = 2;\n    pub const VARIANTS: &'static [Self] = &[Self::A, Self::B];\n}\n"
    );
}

#[test]
fn generic_signature_without_where_clause() {
    let mut holder = plain_enum("Holder", vec![unit("A")]);
    holder.generics = Generics {
        impl_params: "<'a, const N: usize>".to_string(),
        type_args: "<'a, N>".to_string(),
        where_clause: String::new(),
    };
    assert_eq!(
        derive_enumly(&holder).unwrap().render(),
        "impl <'a, const N: usize> Holder <'a, N> {\n    pub const COUNT: usize = 1;\n    pub const VARIANTS: &'static [Self] = &[Self::A];\n}\n"
    );
}

#[test]
fn count_is_written_in_decimal() {
    let names: Vec<String> = (0..12).map(|i| format!("V{}", i)).collect();
    let twelve = plain_enum("Twelve", names.iter().map(|n| unit(n)).collect());
    let fragment = derive_enumly(&twelve).unwrap();
    assert_eq!(fragment.count, 12);
    assert_eq!(fragment.entries.len(), 12);
    let text = fragment.render();
    assert!(text.contains("pub const COUNT: usize = 12;"));
    assert!(text.contains("&[Self::V0, Self::V1, Self::V2, Self::V3, Self::V4, Self::V5, Self::V6, Self::V7, Self::V8, Self::V9, Self::V10, Self::V11];"));
}

#[test]
fn count_of_a_hundred_variants() {
    let names: Vec<String> = (0..100).map(|i| format!("V{}", i)).collect();
    let hundred = plain_enum("Hundred", names.iter().map(|n| unit(n)).collect());
    let fragment = derive_enumly(&hundred).unwrap();
    assert_eq!(fragment.count, 100);
    assert_eq!(fragment.entries.len(), 100);
    assert_eq!(fragment.entries[99], "Self::V99");
    let text = fragment.render();
    assert!(text.starts_with("impl Hundred {\n    pub const COUNT: usize = 100;\n"));
    assert!(text.ends_with(", Self::V98, Self::V99];\n}\n"));
}

#[test]
fn fragment_renders_from_its_fields() {
    let fragment = CodeFragment {
        target: "Pair".to_string(),
        generics: Generics {
            impl_params: "<T>".to_string(),
            type_args: "<T>".to_string(),
            where_clause: String::new(),
        },
        count: 2,
        entries: vec!["Self::Left".to_string(), "Self::Right".to_string()],
    };
    assert_eq!(
        fragment.render(),
        "impl <T> Pair <T> {\n    pub const COUNT: usize = 2;\n    pub const VARIANTS: &'static [Self] = &[Self::Left, Self::Right];\n}\n"
    );
}
