//! The zero-variant resolver: the first variant's implicit zero, explicit
//! zeros on later variants, and the deliberate limit that later implicit
//! discriminants are never computed.

use fromzeros::descriptor::{FieldList, Variant};
use fromzeros::resolve::zero_variant_index;

fn v(name: &str, disc: Option<i128>) -> Variant {
    Variant { name: name.to_string(), discriminant: disc, fields: FieldList::Unit }
}

#[test]
fn clike_without_discriminants_resolves_to_first() {
    let vs = vec![v("A", None), v("B", None), v("C", None)];
    assert_eq!(zero_variant_index(&vs), Some(0));
}

#[test]
fn first_implicit_zero_outranks_later_explicit_zero() {
    // A, B = 0, C: the implicit zero of the first position wins.
    let vs = vec![v("A", None), v("B", Some(0)), v("C", None)];
    assert_eq!(zero_variant_index(&vs), Some(0));
}

#[test]
fn explicit_zero_on_first_variant_resolves_to_it() {
    let vs = vec![v("A", Some(0)), v("B", Some(1))];
    assert_eq!(zero_variant_index(&vs), Some(0));
}

#[test]
fn later_explicit_zero_is_found() {
    // A = 1, B = 0, C = 2 resolves to B.
    let vs = vec![v("A", Some(1)), v("B", Some(0)), v("C", Some(2))];
    assert_eq!(zero_variant_index(&vs), Some(1));
}

#[test]
fn earliest_explicit_zero_wins() {
    let vs = vec![v("A", Some(3)), v("B", Some(0)), v("C", Some(0))];
    assert_eq!(zero_variant_index(&vs), Some(1));
}

#[test]
fn no_zero_discriminant_anywhere() {
    let vs = vec![v("A", Some(1)), v("B", Some(2))];
    assert_eq!(zero_variant_index(&vs), None);
}

#[test]
fn no_variants_no_candidate() {
    assert_eq!(zero_variant_index(&Vec::new()), None);
}

#[test]
fn later_implicit_discriminants_are_never_computed() {
    // A = -1, B, C: B's true implicit discriminant is 0, but the resolver
    // only ever computes the first variant's implicit value, so no
    // candidate is found. A deliberate, documented limit.
    let vs = vec![v("A", Some(-1)), v("B", None), v("C", None)];
    assert_eq!(zero_variant_index(&vs), None);
}
