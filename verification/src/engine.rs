//! The generation engine: one pass over one type descriptor. It either
//! succeeds completely, emitting exactly one artifact, or fails completely
//! with one diagnostic; nothing partial is ever emitted.

use vstd::prelude::*;

use crate::classify::{classification, classify, RepresentationKind};
use crate::compose::{all_fields_supported, fault_models, FieldFault};
use crate::descriptor::{TypeDef, TypeDescriptor, Variant};
use crate::emit::{artifact_models, implement_from_zeros, GeneratedImplementation};
use crate::resolve::{no_zero_candidate, resolves_to, zero_variant_index};

verus! {

/// One fatal generation diagnostic. Each names the offending type; a
/// field-level failure also names the field, its declared type and its
/// source position. The first two arise only at the front-end boundary,
/// never from a well-formed descriptor.
#[derive(Debug, PartialEq, Eq)]
pub enum GenError {
    /// The front end could not turn the input into a descriptor.
    ParseError { detail: String },
    /// The input's shape is not a struct, union or enum definition.
    UnsupportedKind { target: String },
    /// The enum is neither C-like nor under a primitive representation
    /// attribute, so its discriminant bytes cannot be reasoned about.
    LayoutUndefined { target: String },
    /// The enum's layout is well-defined but no variant has a provably
    /// zero discriminant.
    NoZeroDiscriminant { target: String },
    /// A field's type cannot be shown to support the zero capability.
    UnmetFieldConstraint { target: String, fault: FieldFault },
}

/// The outcome owed for one field list at one construction site: the
/// artifact when every field supports the capability, and otherwise the
/// field-constraint diagnostic naming the type and the first offending
/// field.
pub open spec fn fields_outcome(
    name: String,
    generics: Seq<crate::descriptor::GenericParam>,
    scope: Option<String>,
    fields: crate::descriptor::FieldList,
    r: Result<GeneratedImplementation, GenError>,
) -> bool {
    if all_fields_supported(fields, generics) {
        &&& r matches Ok(a)
        &&& artifact_models(a, name, generics, scope, fields)
    } else {
        &&& r matches Err(GenError::UnmetFieldConstraint { target, fault })
        &&& target == name
        &&& fault_models(fault, fields, generics)
    }
}

/// The contract of one generation run over one descriptor.
///
/// A struct or union is composed from its own field list at the top
/// level; a union deliberately requires every member to support the
/// capability, a documented over-approximation. An enum must first have a
/// well-defined layout, then a zero-candidate variant, and is composed
/// from that variant's fields at the variant-qualified site. Exactly one
/// artifact or exactly one diagnostic results.
pub open spec fn generation_post(
    d: TypeDescriptor,
    r: Result<GeneratedImplementation, GenError>,
) -> bool {
    match d.def {
        TypeDef::Struct { fields } => fields_outcome(d.name, d.generics@, None, fields, r),
        TypeDef::Union { fields } => fields_outcome(d.name, d.generics@, None, fields, r),
        TypeDef::Enum { variants } => {
            if classification(variants@, d.attrs@) is Undefined {
                r == Err::<GeneratedImplementation, GenError>(
                    GenError::LayoutUndefined { target: d.name },
                )
            } else if no_zero_candidate(variants@) {
                r == Err::<GeneratedImplementation, GenError>(
                    GenError::NoZeroDiscriminant { target: d.name },
                )
            } else {
                exists|i: int|
                    #[trigger] resolves_to(variants@, i) && fields_outcome(
                        d.name,
                        d.generics@,
                        Some(variants@[i].name),
                        variants@[i].fields,
                        r,
                    )
            }
        },
    }
}

/// Runs the whole analysis for one type definition and produces its
/// generation artifact, or the one diagnostic that is fatal for it.
pub fn from_zeros_derive(descriptor: TypeDescriptor) -> (r: Result<
    GeneratedImplementation,
    GenError,
>)
    ensures
        generation_post(descriptor, r),
{
    let TypeDescriptor { name, generics, attrs, def } = descriptor;
    match def {
        TypeDef::Struct { fields } => {
            match implement_from_zeros(name.clone(), generics, None, fields) {
                Ok(a) => Ok(a),
                Err(fault) => Err(GenError::UnmetFieldConstraint { target: name, fault }),
            }
        },
        TypeDef::Union { fields } => {
            match implement_from_zeros(name.clone(), generics, None, fields) {
                Ok(a) => Ok(a),
                Err(fault) => Err(GenError::UnmetFieldConstraint { target: name, fault }),
            }
        },
        TypeDef::Enum { variants } => {
            let kind = classify(&variants, &attrs);
            if kind == RepresentationKind::Undefined {
                return Err(GenError::LayoutUndefined { target: name });
            }
            match zero_variant_index(&variants) {
                None => Err(GenError::NoZeroDiscriminant { target: name }),
                Some(i) => {
                    let mut variants = variants;
                    let Variant { name: variant_name, discriminant: _, fields } = variants.remove(
                        i,
                    );
                    match implement_from_zeros(name.clone(), generics, Some(variant_name), fields) {
                        Ok(a) => Ok(a),
                        Err(fault) => Err(
                            GenError::UnmetFieldConstraint { target: name, fault },
                        ),
                    }
                },
            }
        },
    }
}

} // verus!
