//! Generic constraint propagator and code emitter: appends the zero
//! capability bound to every generic type parameter — lifetime and const
//! parameters pass through unchanged — and assembles the single generation
//! artifact bound to the original type.

use vstd::prelude::*;

use crate::compose::{
    all_fields_supported, compose_zero_expr, expr_models, fault_models, FieldFault, ZeroExpr,
};
use crate::descriptor::{FieldList, GenericParam};

verus! {

/// One generic parameter of the emitted implementation: the original
/// parameter, and whether the capability bound was appended to it.
#[derive(Debug, PartialEq, Eq)]
pub struct BoundedParam {
    pub param: GenericParam,
    pub zero_bound: bool,
}

/// The emitted generation artifact: the target type, its generic
/// parameters with the propagated bounds, the construction site — the
/// top level for a struct or union, one variant for an enum — and the
/// zero-construction expression. It declares exactly one operation:
/// produce the canonical zero value.
#[derive(Debug, PartialEq, Eq)]
pub struct GeneratedImplementation {
    pub target: String,
    pub generics: Vec<BoundedParam>,
    pub scope: Option<String>,
    pub expr: ZeroExpr,
}

/// The output parameter list preserves the input's arity and order, and
/// carries the capability bound exactly on the type parameters.
pub open spec fn bounds_propagated(out: Seq<BoundedParam>, generics: Seq<GenericParam>) -> bool {
    &&& out.len() == generics.len()
    &&& forall|i: int|
        0 <= i < generics.len() ==> (#[trigger] out[i]).param == generics[i] && out[i].zero_bound
            == (generics[i] is Type)
}

/// The artifact is the one implementation for the given target: same type,
/// same generic parameters with the bounds propagated, the given
/// construction site, and the zero construction of the given field list.
pub open spec fn artifact_models(
    a: GeneratedImplementation,
    target: String,
    generics: Seq<GenericParam>,
    scope: Option<String>,
    fields: FieldList,
) -> bool {
    &&& a.target == target
    &&& a.scope == scope
    &&& bounds_propagated(a.generics@, generics)
    &&& expr_models(a.expr, fields)
}

/// Appends the capability bound to every type parameter, keeping arity
/// and order; lifetime and const parameters pass through unchanged.
#[verifier::loop_isolation(false)]
pub fn add_capability_bounds(generics: Vec<GenericParam>) -> (r: Vec<BoundedParam>)
    ensures
        bounds_propagated(r@, generics@),
{
    let ghost orig = generics@;
    let mut rest = generics;
    let mut out: Vec<BoundedParam> = Vec::new();
    while rest.len() > 0
        invariant
            out@.len() + rest@.len() == orig.len(),
            rest@ == orig.skip(out@.len() as int),
            forall|i: int|
                0 <= i < out@.len() ==> (#[trigger] out@[i]).param == orig[i] && out@[i].zero_bound
                    == (orig[i] is Type),
        decreases rest@.len(),
    {
        let p = rest.remove(0);
        let is_type = match &p {
            GenericParam::Type(_) => true,
            _ => false,
        };
        out.push(BoundedParam { param: p, zero_bound: is_type });
    }
    out
}

/// Builds the whole artifact for one target: composes the zero expression
/// for the field list, propagates the capability bounds, and binds both
/// to the target type at the given construction site. Fails with the
/// first field that cannot be shown to support the capability.
pub fn implement_from_zeros(
    target: String,
    generics: Vec<GenericParam>,
    variant: Option<String>,
    fields: FieldList,
) -> (r: Result<GeneratedImplementation, FieldFault>)
    ensures
        match r {
            Ok(a) => all_fields_supported(fields, generics@) && artifact_models(
                a,
                target,
                generics@,
                variant,
                fields,
            ),
            Err(f) => !all_fields_supported(fields, generics@) && fault_models(
                f,
                fields,
                generics@,
            ),
        },
{
    let expr = match compose_zero_expr(fields, &generics) {
        Ok(e) => e,
        Err(f) => {
            return Err(f);
        },
    };
    let bounded = add_capability_bounds(generics);
    Ok(GeneratedImplementation { target, generics: bounded, scope: variant, expr })
}

} // verus!
