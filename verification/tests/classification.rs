//! The representation classifier: C-like outranks the attribute check, a
//! `repr` attribute counts only with a primitive integer token, and every
//! unrecognized attribute or token is ignored.

use fromzeros::classify::{classify, has_primitive_repr, is_clike, RepresentationKind};
use fromzeros::descriptor::{Attribute, Field, FieldList, FieldTy, IntKind, Span, Variant};

fn sp() -> Span {
    Span { line: 1, column: 1 }
}

fn unit_variant(name: &str, disc: Option<i128>) -> Variant {
    Variant { name: name.to_string(), discriminant: disc, fields: FieldList::Unit }
}

fn payload_variant(name: &str, disc: Option<i128>) -> Variant {
    Variant {
        name: name.to_string(),
        discriminant: disc,
        fields: FieldList::Unnamed(vec![Field { ty: FieldTy::Int(IntKind::U8), span: sp() }]),
    }
}

fn attr(name: &str, tokens: &[&str]) -> Attribute {
    Attribute { name: name.to_string(), tokens: tokens.iter().map(|t| t.to_string()).collect() }
}

#[test]
fn all_unit_variants_are_clike() {
    let vs = vec![unit_variant("A", None), unit_variant("B", None)];
    assert!(is_clike(&vs));
    assert_eq!(classify(&vs, &Vec::new()), RepresentationKind::CLike);
}

#[test]
fn a_payload_variant_is_not_clike() {
    let vs = vec![unit_variant("A", None), payload_variant("B", None)];
    assert!(!is_clike(&vs));
}

#[test]
fn no_variants_count_as_clike() {
    assert!(is_clike(&Vec::new()));
}

#[test]
fn primitive_repr_is_recognized() {
    assert!(has_primitive_repr(&vec![attr("repr", &["u8"])]));
    assert!(has_primitive_repr(&vec![attr("repr", &["isize"])]));
    assert!(has_primitive_repr(&vec![attr("repr", &["C", "u32"])]));
}

#[test]
fn non_primitive_repr_is_not_recognized() {
    assert!(!has_primitive_repr(&Vec::new()));
    assert!(!has_primitive_repr(&vec![attr("repr", &["C"])]));
    assert!(!has_primitive_repr(&vec![attr("repr", &["transparent"])]));
    assert!(!has_primitive_repr(&vec![attr("repr", &[])]));
    assert!(!has_primitive_repr(&vec![attr("derive", &["u8"])]));
}

#[test]
fn later_repr_attribute_still_counts() {
    let attrs = vec![attr("derive", &["Debug"]), attr("repr", &["u16"])];
    assert!(has_primitive_repr(&attrs));
}

#[test]
fn classification_precedence() {
    // C-like wins even with a primitive repr present.
    let clike = vec![unit_variant("A", None)];
    let attrs = vec![attr("repr", &["u8"])];
    assert_eq!(classify(&clike, &attrs), RepresentationKind::CLike);

    // A payload variant needs the attribute.
    let mixed = vec![unit_variant("A", None), payload_variant("B", None)];
    assert_eq!(classify(&mixed, &attrs), RepresentationKind::PrimitiveNumeric);
    assert_eq!(classify(&mixed, &Vec::new()), RepresentationKind::Undefined);
}
