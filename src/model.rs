//! The typed tree that a handler declaration and its attribute options are
//! described by.
use vstd::prelude::*;

verus! {

/// A type as written in a signature: its shape, and its source text.
pub struct TypeExpr {
    pub kind: TypeKind,
    /// The type's tokens, as they are to be emitted.
    pub text: String,
}

/// The shape of a type, as far as classification looks into it.
pub enum TypeKind {
    /// A path type; `ident` and `args` are those of its last segment.
    Path { ident: String, args: Vec<GenericArg> },
    /// `&T` or `&mut T`, with any lifetime.
    Reference { elem: Box<TypeExpr> },
    /// `(A, B, ..)`.
    Tuple { elems: Vec<TypeExpr> },
    /// `impl Trait`.
    ImplTrait,
    /// Any other type.
    Other,
}

/// One argument between the angle brackets of a path segment.
pub enum GenericArg {
    Type { ty: TypeExpr },
    /// A lifetime, a constant, a binding or a constraint.
    Other,
}

/// The binding pattern of a parameter.
pub enum Pattern {
    /// `name`, with or without `mut` or `ref`.
    Ident { name: String },
    /// `Wrapper(p, ..)`.
    TupleStruct { elems: Vec<Pattern> },
    /// `(p, ..)`.
    Tuple { elems: Vec<Pattern> },
    /// Any other pattern.
    Other,
}

/// One declared parameter of a handler.
pub enum FnArg {
    /// `self` in any form.
    Receiver,
    Typed { pat: Pattern, ty: TypeExpr },
}

/// A handler declaration.
pub struct Declaration {
    /// The handler's identifier.
    pub name: String,
    /// Its visibility as written (possibly empty).
    pub vis: String,
    pub inputs: Vec<FnArg>,
    /// The declared return type; `None` where the signature has none.
    pub output: Option<TypeExpr>,
    /// The whole declaration as source text, emitted unchanged.
    pub text: String,
}

/// One option of the attribute, `name(content)`, with its content read both
/// ways that an option may need it.
pub struct AttributeOption {
    pub name: String,
    /// The value of the content where it is a single string literal.
    pub literal: Option<String>,
    /// The content where it is a type.
    pub ty: Option<TypeExpr>,
}

} // verus!
