//! The structural description of one input type definition: the immutable
//! value the generation engine consumes. It is built by an external
//! front-end; nothing here parses source syntax.

use vstd::prelude::*;

verus! {

/// Source position of a declaration, carried through to the emitted
/// sub-expression so that downstream diagnostics point at the original
/// field rather than at a generated location.
#[derive(Debug, Clone, Copy, PartialEq, Eq, Structural)]
pub struct Span {
    pub line: usize,
    pub column: usize,
}

/// The twelve primitive integer types a representation attribute may name.
#[derive(Debug, Clone, Copy, PartialEq, Eq, Structural)]
pub enum IntKind {
    I8,
    I16,
    I32,
    I64,
    I128,
    Isize,
    U8,
    U16,
    U32,
    U64,
    U128,
    Usize,
}

/// The two floating-point widths, named only: no floating-point value is
/// ever computed here.
#[derive(Debug, Clone, Copy, PartialEq, Eq, Structural)]
pub enum FloatKind {
    Single,
    Double,
}

/// The type of one field, as far as the engine can see it. Leaf types
/// carry the capability by declaration; a generic parameter carries it by
/// the propagated bound; any other named type cannot be shown to carry it.
#[derive(Debug, PartialEq, Eq)]
pub enum FieldTy {
    /// The empty tuple type.
    Unit,
    Bool,
    Char,
    Int(IntKind),
    Float(FloatKind),
    /// A raw pointer type; the pointee is carried only for emission.
    RawPointer(Box<FieldTy>),
    /// A fixed-length array: element type and length.
    Array(Box<FieldTy>, usize),
    /// A slice type; the element is carried only for emission.
    Slice(Box<FieldTy>),
    /// A reference to the type parameter at this index of the descriptor's
    /// generic parameter list.
    Param(usize),
    /// Any other named type, kept verbatim for diagnostics.
    Other(String),
}

/// One positional field: its type and where it was declared.
#[derive(Debug, PartialEq, Eq)]
pub struct Field {
    pub ty: FieldTy,
    pub span: Span,
}

/// One named field: its name, its type and where it was declared.
#[derive(Debug, PartialEq, Eq)]
pub struct NamedField {
    pub name: String,
    pub ty: FieldTy,
    pub span: Span,
}

/// The fields of a struct, of a union, or of one enum variant.
#[derive(Debug, PartialEq, Eq)]
pub enum FieldList {
    Unit,
    Unnamed(Vec<Field>),
    Named(Vec<NamedField>),
}

/// One attribute on the type definition: its name and the plain tokens it
/// carries. Only a `repr` attribute naming a primitive integer type is
/// meaningful here; everything else is ignored, not rejected.
#[derive(Debug, PartialEq, Eq)]
pub struct Attribute {
    pub name: String,
    pub tokens: Vec<String>,
}

/// One enum variant: its name, its explicit discriminant literal if it has
/// one, and its fields.
#[derive(Debug, PartialEq, Eq)]
pub struct Variant {
    pub name: String,
    pub discriminant: Option<i128>,
    pub fields: FieldList,
}

/// One generic parameter of the type definition, in declaration order.
/// Only type parameters receive the capability bound; lifetime and const
/// parameters pass through unchanged.
#[derive(Debug, PartialEq, Eq)]
pub enum GenericParam {
    Type(String),
    Lifetime(String),
    Const(String),
}

/// The shape of the definition: a closed set, so that a new kind fails to
/// compile in every component rather than falling through silently.
#[derive(Debug, PartialEq, Eq)]
pub enum TypeDef {
    Struct { fields: FieldList },
    Union { fields: FieldList },
    Enum { variants: Vec<Variant> },
}

/// The whole structural description of one type definition, consumed by
/// one generation run and never shared beyond it.
#[derive(Debug, PartialEq, Eq)]
pub struct TypeDescriptor {
    pub name: String,
    pub generics: Vec<GenericParam>,
    pub attrs: Vec<Attribute>,
    pub def: TypeDef,
}

} // verus!
