//! Field composer: builds the zero-construction expression for a field
//! list — a struct's, a union's, or the resolved enum variant's. Every
//! field type must be shown to support the zero capability, by leaf
//! declaration or by the bound propagated onto a generic type parameter;
//! the first field that cannot be shown to support it is fatal.

use vstd::prelude::*;

use crate::descriptor::{Field, FieldList, FieldTy, GenericParam, NamedField, Span};

verus! {

/// One sub-expression of the construction: the capability's zero value
/// for the field's type, carrying the field's source position.
#[derive(Debug, PartialEq, Eq)]
pub struct ZeroCall {
    pub ty: FieldTy,
    pub span: Span,
}

/// One named sub-expression: field name paired with its zero call.
#[derive(Debug, PartialEq, Eq)]
pub struct NamedZeroCall {
    pub name: String,
    pub call: ZeroCall,
}

/// The zero-construction expression for one field list, in declaration
/// order for deterministic output.
#[derive(Debug, PartialEq, Eq)]
pub enum ZeroExpr {
    /// Empty construction: no fields, no sub-expressions.
    Empty,
    Positional(Vec<ZeroCall>),
    Named(Vec<NamedZeroCall>),
}

/// Which field a diagnostic is about: its position or its name.
#[derive(Debug, PartialEq, Eq)]
pub enum FieldId {
    Position(usize),
    Name(String),
}

/// The data a field-level diagnostic must carry: the field, its declared
/// type, and its source position.
#[derive(Debug, PartialEq, Eq)]
pub struct FieldFault {
    pub field: FieldId,
    pub declared: FieldTy,
    pub span: Span,
}

/// The field type supports the zero capability: leaf types by
/// declaration — the unit type, booleans, characters, the primitive
/// integers, both floating-point widths, raw pointers, slices, and
/// fixed-length arrays of a supporting element — and a generic type
/// parameter by its propagated bound. Any other named type cannot be
/// shown to support it.
pub open spec fn supports_zero(t: FieldTy, generics: Seq<GenericParam>) -> bool
    decreases t,
{
    match t {
        FieldTy::Unit => true,
        FieldTy::Bool => true,
        FieldTy::Char => true,
        FieldTy::Int(_) => true,
        FieldTy::Float(_) => true,
        FieldTy::RawPointer(_) => true,
        FieldTy::Slice(_) => true,
        FieldTy::Array(elem, _) => supports_zero(*elem, generics),
        FieldTy::Param(i) => i < generics.len() && generics[i as int] is Type,
        FieldTy::Other(_) => false,
    }
}

/// Every field of the list supports the zero capability.
pub open spec fn all_fields_supported(fl: FieldList, generics: Seq<GenericParam>) -> bool {
    match fl {
        FieldList::Unit => true,
        FieldList::Unnamed(fs) => forall|i: int|
            0 <= i < fs@.len() ==> supports_zero(#[trigger] fs@[i].ty, generics),
        FieldList::Named(fs) => forall|i: int|
            0 <= i < fs@.len() ==> supports_zero(#[trigger] fs@[i].ty, generics),
    }
}

/// Position `i` holds the first positional field that cannot be shown to
/// support the capability.
pub open spec fn first_unsupported_unnamed(
    fs: Seq<Field>,
    generics: Seq<GenericParam>,
    i: int,
) -> bool {
    &&& 0 <= i < fs.len()
    &&& !supports_zero(fs[i].ty, generics)
    &&& forall|j: int| 0 <= j < i ==> supports_zero(#[trigger] fs[j].ty, generics)
}

/// Position `i` holds the first named field that cannot be shown to
/// support the capability.
pub open spec fn first_unsupported_named(
    fs: Seq<NamedField>,
    generics: Seq<GenericParam>,
    i: int,
) -> bool {
    &&& 0 <= i < fs.len()
    &&& !supports_zero(fs[i].ty, generics)
    &&& forall|j: int| 0 <= j < i ==> supports_zero(#[trigger] fs[j].ty, generics)
}

/// The expression is the zero construction of the field list: one
/// sub-expression per field, in declaration order, each carrying the
/// field's type and source position, paired with the field's name where
/// the list is named.
pub open spec fn expr_models(e: ZeroExpr, fl: FieldList) -> bool {
    match fl {
        FieldList::Unit => e is Empty,
        FieldList::Unnamed(fs) => {
            &&& e matches ZeroExpr::Positional(cs)
            &&& cs@.len() == fs@.len()
            &&& forall|i: int|
                0 <= i < fs@.len() ==> (#[trigger] cs@[i]).ty == fs@[i].ty && cs@[i].span
                    == fs@[i].span
        },
        FieldList::Named(fs) => {
            &&& e matches ZeroExpr::Named(cs)
            &&& cs@.len() == fs@.len()
            &&& forall|i: int|
                0 <= i < fs@.len() ==> (#[trigger] cs@[i]).name == fs@[i].name && cs@[i].call.ty
                    == fs@[i].ty && cs@[i].call.span == fs@[i].span
        },
    }
}

/// The fault names the first field of the list that cannot be shown to
/// support the capability, with that field's declared type and position.
pub open spec fn fault_models(f: FieldFault, fl: FieldList, generics: Seq<GenericParam>) -> bool {
    match fl {
        FieldList::Unit => false,
        FieldList::Unnamed(fs) => exists|i: int|
            #[trigger] first_unsupported_unnamed(fs@, generics, i) && f.field == FieldId::Position(
                i as usize,
            ) && f.declared == fs@[i].ty && f.span == fs@[i].span,
        FieldList::Named(fs) => exists|i: int|
            #[trigger] first_unsupported_named(fs@, generics, i) && f.field == FieldId::Name(
                fs@[i].name,
            ) && f.declared == fs@[i].ty && f.span == fs@[i].span,
    }
}

/// Decides whether one field type supports the zero capability under the
/// given generic parameter list.
pub fn field_supports_zero(t: &FieldTy, generics: &Vec<GenericParam>) -> (r: bool)
    ensures
        r == supports_zero(*t, generics@),
    decreases *t,
{
    match t {
        FieldTy::Unit => true,
        FieldTy::Bool => true,
        FieldTy::Char => true,
        FieldTy::Int(_) => true,
        FieldTy::Float(_) => true,
        FieldTy::RawPointer(_) => true,
        FieldTy::Slice(_) => true,
        FieldTy::Array(elem, _) => field_supports_zero(&**elem, generics),
        FieldTy::Param(i) => {
            if *i < generics.len() {
                match &generics[*i] {
                    GenericParam::Type(_) => true,
                    _ => false,
                }
            } else {
                false
            }
        },
        FieldTy::Other(_) => false,
    }
}

/// Builds the zero-construction expression for the field list, or reports
/// the first field that cannot be shown to support the capability.
#[verifier::loop_isolation(false)]
pub fn compose_zero_expr(fields: FieldList, generics: &Vec<GenericParam>) -> (r: Result<
    ZeroExpr,
    FieldFault,
>)
    ensures
        match r {
            Ok(e) => all_fields_supported(fields, generics@) && expr_models(e, fields),
            Err(f) => !all_fields_supported(fields, generics@) && fault_models(
                f,
                fields,
                generics@,
            ),
        },
{
    match fields {
        FieldList::Unit => Ok(ZeroExpr::Empty),
        FieldList::Unnamed(fs) => {
            let ghost orig = fs@;
            let mut rest = fs;
            let mut calls: Vec<ZeroCall> = Vec::new();
            while rest.len() > 0
                invariant
                    calls@.len() + rest@.len() == orig.len(),
                    rest@ == orig.skip(calls@.len() as int),
                    forall|i: int|
                        0 <= i < calls@.len() ==> (#[trigger] calls@[i]).ty == orig[i].ty
                            && calls@[i].span == orig[i].span,
                    forall|i: int|
                        0 <= i < calls@.len() ==> supports_zero(#[trigger] orig[i].ty, generics@),
                decreases rest@.len(),
            {
                let ghost k = calls@.len() as int;
                let f = rest.remove(0);
                assert(f == orig[k]);
                if field_supports_zero(&f.ty, generics) {
                    calls.push(ZeroCall { ty: f.ty, span: f.span });
                } else {
                    let fault = FieldFault {
                        field: FieldId::Position(calls.len()),
                        declared: f.ty,
                        span: f.span,
                    };
                    assert(first_unsupported_unnamed(orig, generics@, k));
                    return Err(fault);
                }
            }
            assert(calls@.len() == orig.len());
            Ok(ZeroExpr::Positional(calls))
        },
        FieldList::Named(fs) => {
            let ghost orig = fs@;
            let mut rest = fs;
            let mut calls: Vec<NamedZeroCall> = Vec::new();
            while rest.len() > 0
                invariant
                    calls@.len() + rest@.len() == orig.len(),
                    rest@ == orig.skip(calls@.len() as int),
                    forall|i: int|
                        0 <= i < calls@.len() ==> (#[trigger] calls@[i]).name == orig[i].name
                            && calls@[i].call.ty == orig[i].ty && calls@[i].call.span
                            == orig[i].span,
                    forall|i: int|
                        0 <= i < calls@.len() ==> supports_zero(#[trigger] orig[i].ty, generics@),
                decreases rest@.len(),
            {
                let ghost k = calls@.len() as int;
                let f = rest.remove(0);
                assert(f == orig[k]);
                if field_supports_zero(&f.ty, generics) {
                    calls.push(
                        NamedZeroCall { name: f.name, call: ZeroCall { ty: f.ty, span: f.span } },
                    );
                } else {
                    let fault = FieldFault {
                        field: FieldId::Name(f.name),
                        declared: f.ty,
                        span: f.span,
                    };
                    assert(first_unsupported_named(orig, generics@, k));
                    return Err(fault);
                }
            }
            assert(calls@.len() == orig.len());
            Ok(ZeroExpr::Named(calls))
        },
    }
}

} // verus!
