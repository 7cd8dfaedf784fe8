//! The guarantees the engine gives as a whole, each proved from the
//! component contracts: when generation is owed, which variant resolution
//! selects, which failures are fatal and in what order they are detected,
//! what the emitted generics carry, and that one descriptor always yields
//! one structurally identical outcome.

use vstd::prelude::*;

use crate::classify::{classification, RepresentationKind};
use crate::compose::{
    all_fields_supported, first_unsupported_named, first_unsupported_unnamed, FieldId, ZeroExpr,
};
use crate::descriptor::{Attribute, FieldList, GenericParam, TypeDef, TypeDescriptor, Variant};
use crate::emit::GeneratedImplementation;
use crate::engine::{fields_outcome, generation_post, GenError};
use crate::resolve::{lemma_resolution_unique, no_zero_candidate, resolves_to};

verus! {

/// The two expressions are structurally identical: the same shape, with
/// the same sub-expressions in the same order.
pub open spec fn same_expr(x: ZeroExpr, y: ZeroExpr) -> bool {
    match (x, y) {
        (ZeroExpr::Empty, ZeroExpr::Empty) => true,
        (ZeroExpr::Positional(u), ZeroExpr::Positional(v)) => u@ == v@,
        (ZeroExpr::Named(u), ZeroExpr::Named(v)) => u@ == v@,
        _ => false,
    }
}

/// The two artifacts are structurally identical: same target, same
/// construction site, the same generic parameters in the same order, and
/// structurally identical expressions.
pub open spec fn same_artifact(a: GeneratedImplementation, b: GeneratedImplementation) -> bool {
    &&& a.target == b.target
    &&& a.scope == b.scope
    &&& a.generics@ == b.generics@
    &&& same_expr(a.expr, b.expr)
}

/// The two outcomes are structurally identical: the same diagnostic, or
/// structurally identical artifacts.
pub open spec fn same_outcome(
    r1: Result<GeneratedImplementation, GenError>,
    r2: Result<GeneratedImplementation, GenError>,
) -> bool {
    match (r1, r2) {
        (Ok(a), Ok(b)) => same_artifact(a, b),
        (Err(e1), Err(e2)) => e1 == e2,
        _ => false,
    }
}

/// A struct whose every field type supports the zero capability always
/// generates: the run emits an artifact, never a diagnostic.
pub proof fn law_capable_struct_generates(
    d: TypeDescriptor,
    fields: FieldList,
    r: Result<GeneratedImplementation, GenError>,
)
    requires
        d.def == (TypeDef::Struct { fields }),
        all_fields_supported(fields, d.generics@),
        generation_post(d, r),
    ensures
        r is Ok,
{
}

/// A union generates exactly when every member's type supports the
/// capability — deliberately stricter than the logically sufficient
/// "some member supports it".
pub proof fn law_union_needs_every_member(
    d: TypeDescriptor,
    fields: FieldList,
    r: Result<GeneratedImplementation, GenError>,
)
    requires
        d.def == (TypeDef::Union { fields }),
        generation_post(d, r),
    ensures
        r is Ok <==> all_fields_supported(fields, d.generics@),
{
}

/// A C-like enum with no explicit discriminants classifies as C-like and
/// always resolves to its first declared variant.
pub proof fn law_clike_defaults_to_first(vs: Seq<Variant>, attrs: Seq<Attribute>)
    requires
        vs.len() > 0,
        forall|i: int| 0 <= i < vs.len() ==> (#[trigger] vs[i].fields) is Unit,
        forall|i: int| 0 <= i < vs.len() ==> (#[trigger] vs[i].discriminant) is None,
    ensures
        classification(vs, attrs) == RepresentationKind::CLike,
        resolves_to(vs, 0),
{
    assert(vs[0].discriminant is None);
}

/// The first variant's implicit zero outranks an explicit zero declared
/// later: whenever the first variant has no explicit discriminant, the
/// first variant is selected, whatever the later variants declare.
pub proof fn law_first_implicit_zero_outranks(vs: Seq<Variant>)
    requires
        vs.len() > 0,
        vs[0].discriminant is None,
    ensures
        resolves_to(vs, 0),
{
}

/// Classification precedes discriminant search: an enum whose layout is
/// undefined fails with the layout diagnostic, whatever its variants
/// declare as discriminants.
pub proof fn law_undefined_layout_is_fatal(
    d: TypeDescriptor,
    variants: Vec<Variant>,
    r: Result<GeneratedImplementation, GenError>,
)
    requires
        d.def == (TypeDef::Enum { variants }),
        classification(variants@, d.attrs@) is Undefined,
        generation_post(d, r),
    ensures
        r == Err::<GeneratedImplementation, GenError>(GenError::LayoutUndefined { target: d.name }),
{
}

/// An enum with a well-defined layout but no provably-zero discriminant
/// fails with the missing-discriminant diagnostic.
pub proof fn law_missing_zero_is_fatal(
    d: TypeDescriptor,
    variants: Vec<Variant>,
    r: Result<GeneratedImplementation, GenError>,
)
    requires
        d.def == (TypeDef::Enum { variants }),
        !(classification(variants@, d.attrs@) is Undefined),
        no_zero_candidate(variants@),
        generation_post(d, r),
    ensures
        r == Err::<GeneratedImplementation, GenError>(
            GenError::NoZeroDiscriminant { target: d.name },
        ),
{
}

/// Every emitted artifact preserves the arity and order of the original
/// generic parameter list and carries the capability bound exactly on the
/// type parameters; in particular a type parameter used by any field is
/// bounded, so a non-conforming instantiation fails where the artifact is
/// consumed, never silently here.
pub proof fn law_type_params_carry_bound(d: TypeDescriptor, a: GeneratedImplementation)
    requires
        generation_post(d, Ok(a)),
    ensures
        a.generics@.len() == d.generics@.len(),
        forall|i: int|
            0 <= i < d.generics@.len() ==> (#[trigger] a.generics@[i]).param == d.generics@[i]
                && a.generics@[i].zero_bound == (d.generics@[i] is Type),
{
    let r = Ok::<GeneratedImplementation, GenError>(a);
    match d.def {
        TypeDef::Struct { .. } => {},
        TypeDef::Union { .. } => {},
        TypeDef::Enum { variants } => {
            let i = choose|i: int|
                #[trigger] resolves_to(variants@, i) && fields_outcome(
                    d.name,
                    d.generics@,
                    Some(variants@[i].name),
                    variants@[i].fields,
                    r,
                );
        },
    }
}

/// Determinism: two generation runs over one unchanged descriptor produce
/// structurally identical outcomes — the same diagnostic, or artifacts
/// identical in target, construction site, parameters and expression.
pub proof fn law_generation_deterministic(
    d: TypeDescriptor,
    r1: Result<GeneratedImplementation, GenError>,
    r2: Result<GeneratedImplementation, GenError>,
)
    requires
        generation_post(d, r1),
        generation_post(d, r2),
    ensures
        same_outcome(r1, r2),
{
    match d.def {
        TypeDef::Struct { fields } => {
            lemma_fields_outcome_deterministic(d.name, d.generics@, None, fields, r1, r2);
        },
        TypeDef::Union { fields } => {
            lemma_fields_outcome_deterministic(d.name, d.generics@, None, fields, r1, r2);
        },
        TypeDef::Enum { variants } => {
            if classification(variants@, d.attrs@) is Undefined {
            } else if no_zero_candidate(variants@) {
            } else {
                let i1 = choose|i: int|
                    #[trigger] resolves_to(variants@, i) && fields_outcome(
                        d.name,
                        d.generics@,
                        Some(variants@[i].name),
                        variants@[i].fields,
                        r1,
                    );
                let i2 = choose|i: int|
                    #[trigger] resolves_to(variants@, i) && fields_outcome(
                        d.name,
                        d.generics@,
                        Some(variants@[i].name),
                        variants@[i].fields,
                        r2,
                    );
                lemma_resolution_unique(variants@, i1, i2);
                lemma_fields_outcome_deterministic(
                    d.name,
                    d.generics@,
                    Some(variants@[i1].name),
                    variants@[i1].fields,
                    r1,
                    r2,
                );
            }
        },
    }
}

/// The outcome owed for one field list is unique up to structural
/// identity.
proof fn lemma_fields_outcome_deterministic(
    name: String,
    generics: Seq<GenericParam>,
    scope: Option<String>,
    fields: FieldList,
    r1: Result<GeneratedImplementation, GenError>,
    r2: Result<GeneratedImplementation, GenError>,
)
    requires
        fields_outcome(name, generics, scope, fields, r1),
        fields_outcome(name, generics, scope, fields, r2),
    ensures
        same_outcome(r1, r2),
{
    if all_fields_supported(fields, generics) {
        let a = r1->Ok_0;
        let b = r2->Ok_0;
        assert(a.generics@ =~= b.generics@);
        match fields {
            FieldList::Unit => {},
            FieldList::Unnamed(fs) => {
                assert(a.expr->Positional_0@ =~= b.expr->Positional_0@);
            },
            FieldList::Named(fs) => {
                assert(a.expr->Named_0@ =~= b.expr->Named_0@);
            },
        }
    } else {
        let f1 = r1->Err_0->UnmetFieldConstraint_fault;
        let f2 = r2->Err_0->UnmetFieldConstraint_fault;
        match fields {
            FieldList::Unit => {},
            FieldList::Unnamed(fs) => {
                let i1 = choose|i: int|
                    #[trigger] first_unsupported_unnamed(fs@, generics, i) && f1.field
                        == FieldId::Position(i as usize) && f1.declared == fs@[i].ty
                        && f1.span == fs@[i].span;
                let i2 = choose|i: int|
                    #[trigger] first_unsupported_unnamed(fs@, generics, i) && f2.field
                        == FieldId::Position(i as usize) && f2.declared == fs@[i].ty
                        && f2.span == fs@[i].span;
                assert(i1 == i2);
            },
            FieldList::Named(fs) => {
                let i1 = choose|i: int|
                    #[trigger] first_unsupported_named(fs@, generics, i) && f1.field
                        == FieldId::Name(fs@[i].name) && f1.declared == fs@[i].ty
                        && f1.span == fs@[i].span;
                let i2 = choose|i: int|
                    #[trigger] first_unsupported_named(fs@, generics, i) && f2.field
                        == FieldId::Name(fs@[i].name) && f2.declared == fs@[i].ty
                        && f2.span == fs@[i].span;
                assert(i1 == i2);
            },
        }
    }
}

} // verus!
