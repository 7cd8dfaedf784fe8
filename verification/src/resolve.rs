//! Zero-variant resolver: for an enum whose layout is well-defined, finds
//! the variant whose discriminant is provably zero. The first variant's
//! discriminant is implicitly zero unless it declares one; implicit
//! discriminants of later variants are deliberately never computed, so a
//! later variant counts only through an explicit `0` literal.

use vstd::prelude::*;

use crate::descriptor::Variant;

verus! {

/// The effective discriminant of the first variant: its explicit literal
/// if present, else the implicit default `0` of the first position.
pub open spec fn first_effective_discriminant(vs: Seq<Variant>) -> int
    recommends
        vs.len() > 0,
{
    match vs[0].discriminant {
        Some(d) => d as int,
        None => 0,
    }
}

/// Index `i` is the zero candidate of the variant sequence: the first
/// variant when its effective discriminant is zero, and otherwise the
/// earliest later variant declaring an explicit `0`.
pub open spec fn resolves_to(vs: Seq<Variant>, i: int) -> bool {
    &&& 0 <= i < vs.len()
    &&& if first_effective_discriminant(vs) == 0 {
        i == 0
    } else {
        &&& 1 <= i
        &&& vs[i].discriminant == Some(0i128)
        &&& forall|j: int| 1 <= j < i ==> vs[j].discriminant != Some(0i128)
    }
}

/// No variant has a provably-zero discriminant: the sequence is empty, or
/// the first variant's effective discriminant is not zero and no later
/// variant declares an explicit `0`.
pub open spec fn no_zero_candidate(vs: Seq<Variant>) -> bool {
    ||| vs.len() == 0
    ||| (first_effective_discriminant(vs) != 0 && forall|j: int|
        1 <= j < vs.len() ==> vs[j].discriminant != Some(0i128))
}

/// At most one index can be the zero candidate.
pub proof fn lemma_resolution_unique(vs: Seq<Variant>, i: int, j: int)
    requires
        resolves_to(vs, i),
        resolves_to(vs, j),
    ensures
        i == j,
{
}

/// A sequence of variants either has exactly one zero candidate or none.
pub proof fn lemma_resolution_excludes_absence(vs: Seq<Variant>, i: int)
    requires
        resolves_to(vs, i),
    ensures
        !no_zero_candidate(vs),
{
}

/// Produces the index of the zero-candidate variant, if any: the first
/// variant when its effective discriminant is zero, else the earliest
/// later variant whose explicit discriminant literal is zero.
pub fn zero_variant_index(variants: &Vec<Variant>) -> (r: Option<usize>)
    ensures
        match r {
            Some(i) => resolves_to(variants@, i as int),
            None => no_zero_candidate(variants@),
        },
{
    if variants.len() == 0 {
        return None;
    }
    let first_effective: i128 = match variants[0].discriminant {
        Some(d) => d,
        None => 0,
    };
    if first_effective == 0 {
        return Some(0);
    }
    let mut i: usize = 1;
    while i < variants.len()
        invariant
            1 <= i <= variants@.len(),
            first_effective_discriminant(variants@) != 0,
            forall|j: int| 1 <= j < i ==> variants@[j].discriminant != Some(0i128),
        decreases variants@.len() - i,
    {
        let explicit_zero = match variants[i].discriminant {
            Some(d) => d == 0,
            None => false,
        };
        if explicit_zero {
            return Some(i);
        }
        i += 1;
    }
    None
}

} // verus!
