//! The arm synthesizer on each shape of variant and each accessor.

use enum_reflect::arm::{
    positional_name, synthesize_arm, synthesize_arms, AccessorKind, Arm, Entry, Pattern,
};
use enum_reflect::decl::{Field, FieldShape, Variant};

const KINDS: [AccessorKind; 4] = [
    AccessorKind::Fields,
    AccessorKind::NamedFields,
    AccessorKind::FieldsMut,
    AccessorKind::NamedFieldsMut,
];

fn field(name: &str, ty: &str) -> Field {
    Field { name: name.to_string(), ty: ty.to_string() }
}

fn variant(name: &str, fields: FieldShape) -> Variant {
    Variant { name: name.to_string(), fields }
}

fn bare(binding: &str) -> Entry {
    Entry { label: None, binding: binding.to_string() }
}

fn labelled(binding: &str) -> Entry {
    Entry { label: Some(binding.to_string()), binding: binding.to_string() }
}

fn names(list: &[&str]) -> Vec<String> {
    list.iter().map(|s| s.to_string()).collect()
}

#[test]
fn unit_variant_yields_nothing_under_every_accessor() {
    let unit = variant("Empty", FieldShape::Empty);
    for kind in KINDS {
        assert_eq!(
            synthesize_arm(&unit, kind),
            Arm { variant: "Empty".to_string(), pattern: Pattern::Unit, entries: vec![] }
        );
    }
}

#[test]
fn named_fields_come_with_their_names_in_order() {
    let named = variant("Named", FieldShape::Named(vec![field("a", "String"), field("b", "i32")]));
    for kind in [AccessorKind::NamedFields, AccessorKind::NamedFieldsMut] {
        assert_eq!(
            synthesize_arm(&named, kind),
            Arm {
                variant: "Named".to_string(),
                pattern: Pattern::Struct(names(&["a", "b"])),
                entries: vec![labelled("a"), labelled("b")],
            }
        );
    }
}

#[test]
fn named_fields_lose_their_names_under_the_plain_accessors() {
    let named = variant("Named", FieldShape::Named(vec![field("a", "String"), field("b", "i32")]));
    for kind in [AccessorKind::Fields, AccessorKind::FieldsMut] {
        assert_eq!(
            synthesize_arm(&named, kind),
            Arm {
                variant: "Named".to_string(),
                pattern: Pattern::Struct(names(&["a", "b"])),
                entries: vec![bare("a"), bare("b")],
            }
        );
    }
}

#[test]
fn positional_fields_are_dropped_by_the_named_accessors() {
    let pair = variant("Pair", FieldShape::Positional(2));
    for kind in [AccessorKind::NamedFields, AccessorKind::NamedFieldsMut] {
        assert_eq!(
            synthesize_arm(&pair, kind),
            Arm { variant: "Pair".to_string(), pattern: Pattern::TupleRest, entries: vec![] }
        );
    }
}

#[test]
fn positional_fields_come_in_order_under_the_plain_accessors() {
    let pair = variant("Pair", FieldShape::Positional(2));
    for kind in [AccessorKind::Fields, AccessorKind::FieldsMut] {
        assert_eq!(
            synthesize_arm(&pair, kind),
            Arm {
                variant: "Pair".to_string(),
                pattern: Pattern::Tuple(names(&["f0", "f1"])),
                entries: vec![bare("f0"), bare("f1")],
            }
        );
    }
}

#[test]
fn declared_order_is_kept_whatever_the_names() {
    let record = variant(
        "Record",
        FieldShape::Named(vec![field("zeta", "u8"), field("alpha", "u8"), field("mid", "u8")]),
    );
    let arm = synthesize_arm(&record, AccessorKind::NamedFields);
    assert_eq!(arm.pattern, Pattern::Struct(names(&["zeta", "alpha", "mid"])));
    assert_eq!(arm.entries, vec![labelled("zeta"), labelled("alpha"), labelled("mid")]);
    let arm = synthesize_arm(&record, AccessorKind::FieldsMut);
    assert_eq!(arm.entries, vec![bare("zeta"), bare("alpha"), bare("mid")]);
}

#[test]
fn variants_without_fields_in_brackets_bind_nothing() {
    let tuple = variant("Tuple", FieldShape::Positional(0));
    assert_eq!(
        synthesize_arm(&tuple, AccessorKind::Fields),
        Arm { variant: "Tuple".to_string(), pattern: Pattern::Tuple(vec![]), entries: vec![] }
    );
    assert_eq!(
        synthesize_arm(&tuple, AccessorKind::NamedFields),
        Arm { variant: "Tuple".to_string(), pattern: Pattern::TupleRest, entries: vec![] }
    );
    let record = variant("Record", FieldShape::Named(vec![]));
    for kind in KINDS {
        assert_eq!(
            synthesize_arm(&record, kind),
            Arm { variant: "Record".to_string(), pattern: Pattern::Struct(vec![]), entries: vec![] }
        );
    }
}

#[test]
fn one_arm_for_each_variant_in_the_order_of_declaration() {
    let variants = vec![
        variant("C", FieldShape::Positional(1)),
        variant("A", FieldShape::Empty),
        variant("B", FieldShape::Named(vec![field("x", "u8")])),
    ];
    for kind in KINDS {
        let arms = synthesize_arms(&variants, kind);
        assert_eq!(arms.len(), 3);
        for (arm, variant) in arms.iter().zip(&variants) {
            assert_eq!(*arm, synthesize_arm(variant, kind));
        }
        let order: Vec<&str> = arms.iter().map(|arm| arm.variant.as_str()).collect();
        assert_eq!(order, vec!["C", "A", "B"]);
    }
    assert!(synthesize_arms(&vec![], AccessorKind::Fields).is_empty());
}

#[test]
fn positional_names_are_f_and_the_index_in_decimal() {
    assert_eq!(positional_name(0), "f0");
    assert_eq!(positional_name(1), "f1");
    assert_eq!(positional_name(9), "f9");
    assert_eq!(positional_name(10), "f10");
    assert_eq!(positional_name(11), "f11");
    assert_eq!(positional_name(99), "f99");
    assert_eq!(positional_name(100), "f100");
    assert_eq!(positional_name(1905), "f1905");
    assert_eq!(positional_name(usize::MAX), format!("f{}", usize::MAX));
    for i in 0..2000usize {
        assert_eq!(positional_name(i), format!("f{}", i));
    }
}

#[test]
fn positional_names_make_valid_identifiers() {
    for i in [0usize, 7, 10, 345] {
        let ident: syn::Ident = syn::parse_str(&positional_name(i)).unwrap();
        assert_eq!(ident.to_string(), format!("f{}", i));
    }
}

#[test]
fn accessor_kinds_by_family() {
    assert!(!AccessorKind::Fields.is_mutable());
    assert!(!AccessorKind::Fields.is_named());
    assert!(!AccessorKind::NamedFields.is_mutable());
    assert!(AccessorKind::NamedFields.is_named());
    assert!(AccessorKind::FieldsMut.is_mutable());
    assert!(!AccessorKind::FieldsMut.is_named());
    assert!(AccessorKind::NamedFieldsMut.is_mutable());
    assert!(AccessorKind::NamedFieldsMut.is_named());
}
