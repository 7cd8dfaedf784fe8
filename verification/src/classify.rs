//! Representation classifier: decides, for an enum definition, whether its
//! memory layout is well-defined — either every variant is unit-shaped
//! ("C-like"), or a `repr` attribute names one of the twelve primitive
//! integer types. An enum whose layout is neither is fatal for generation:
//! the byte pattern of its discriminant cannot be reasoned about.

use vstd::prelude::*;

use crate::descriptor::{Attribute, FieldList, Variant};

verus! {

/// The classification of an enum's memory layout.
#[derive(Debug, Clone, Copy, PartialEq, Eq, Structural)]
pub enum RepresentationKind {
    /// Neither C-like nor under a primitive representation attribute.
    Undefined,
    /// Every variant is unit-shaped.
    CLike,
    /// A `repr` attribute names a primitive integer type.
    PrimitiveNumeric,
}

/// Every variant of the sequence is unit-shaped.
pub open spec fn all_variants_unit(vs: Seq<Variant>) -> bool {
    forall|i: int| 0 <= i < vs.len() ==> vs[i].fields is Unit
}

/// The token names one of the twelve primitive integer types.
pub open spec fn is_primitive_name(t: Seq<char>) -> bool {
    ||| t == "i8"@
    ||| t == "i16"@
    ||| t == "i32"@
    ||| t == "i64"@
    ||| t == "i128"@
    ||| t == "isize"@
    ||| t == "u8"@
    ||| t == "u16"@
    ||| t == "u32"@
    ||| t == "u64"@
    ||| t == "u128"@
    ||| t == "usize"@
}

/// Some attribute of the set is a `repr` attribute carrying a primitive
/// integer type name among its tokens. Any other attribute or token is
/// ignored for classification, not rejected.
pub open spec fn primitive_repr_named(attrs: Seq<Attribute>) -> bool {
    exists|i: int, j: int|
        0 <= i < attrs.len() && 0 <= j < attrs[i].tokens@.len()
            && attrs[i].name@ == "repr"@ && is_primitive_name(#[trigger] attrs[i].tokens@[j]@)
}

/// The layout classification of an enum with the given variants and
/// attribute set: C-like if every variant is unit-shaped, else primitive
/// if a `repr` attribute names a primitive integer type, else undefined.
pub open spec fn classification(vs: Seq<Variant>, attrs: Seq<Attribute>) -> RepresentationKind {
    if all_variants_unit(vs) {
        RepresentationKind::CLike
    } else if primitive_repr_named(attrs) {
        RepresentationKind::PrimitiveNumeric
    } else {
        RepresentationKind::Undefined
    }
}

/// Character-for-character string comparison, stated over the views.
fn str_eq(a: &str, b: &str) -> (r: bool)
    ensures
        r == (a@ == b@),
{
    let x: String = a.to_owned();
    let y: String = b.to_owned();
    x == y
}

/// The token names one of the twelve primitive integer types.
fn is_primitive_token(t: &str) -> (r: bool)
    ensures
        r == is_primitive_name(t@),
{
    str_eq(t, "i8") || str_eq(t, "i16") || str_eq(t, "i32") || str_eq(t, "i64") || str_eq(
        t,
        "i128",
    ) || str_eq(t, "isize") || str_eq(t, "u8") || str_eq(t, "u16") || str_eq(t, "u32") || str_eq(
        t,
        "u64",
    ) || str_eq(t, "u128") || str_eq(t, "usize")
}

/// Produces true exactly when every variant is unit-shaped.
pub fn is_clike(variants: &Vec<Variant>) -> (r: bool)
    ensures
        r == all_variants_unit(variants@),
{
    let mut i: usize = 0;
    while i < variants.len()
        invariant
            i <= variants@.len(),
            forall|j: int| 0 <= j < i ==> variants@[j].fields is Unit,
        decreases variants@.len() - i,
    {
        let unit = match &variants[i].fields {
            FieldList::Unit => true,
            _ => false,
        };
        if !unit {
            return false;
        }
        i += 1;
    }
    true
}

/// Produces true exactly when some `repr` attribute carries a primitive
/// integer type name.
pub fn has_primitive_repr(attrs: &Vec<Attribute>) -> (r: bool)
    ensures
        r == primitive_repr_named(attrs@),
{
    let mut i: usize = 0;
    while i < attrs.len()
        invariant
            i <= attrs@.len(),
            forall|k: int, j: int|
                0 <= k < i && 0 <= j < attrs@[k].tokens@.len() ==> !(attrs@[k].name@ == "repr"@
                    && is_primitive_name(#[trigger] attrs@[k].tokens@[j]@)),
        decreases attrs@.len() - i,
    {
        if str_eq(attrs[i].name.as_str(), "repr") {
            let mut j: usize = 0;
            while j < attrs[i].tokens.len()
                invariant
                    i < attrs@.len(),
                    j <= attrs@[i as int].tokens@.len(),
                    attrs@[i as int].name@ == "repr"@,
                    forall|l: int|
                        0 <= l < j ==> !is_primitive_name(#[trigger] attrs@[i as int].tokens@[l]@),
                decreases attrs@[i as int].tokens@.len() - j,
            {
                if is_primitive_token(attrs[i].tokens[j].as_str()) {
                    return true;
                }
                j += 1;
            }
        }
        i += 1;
    }
    false
}

/// Classifies the layout of an enum with the given variants and attributes.
pub fn classify(variants: &Vec<Variant>, attrs: &Vec<Attribute>) -> (r: RepresentationKind)
    ensures
        r == classification(variants@, attrs@),
{
    if is_clike(variants) {
        RepresentationKind::CLike
    } else if has_primitive_repr(attrs) {
        RepresentationKind::PrimitiveNumeric
    } else {
        RepresentationKind::Undefined
    }
}

} // verus!
