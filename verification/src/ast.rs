//! The syntax model the linter works on: a parameter's declared type as an
//! immutable tree, and a function signature as an ordered parameter list.
//!
//! Every node carries a span, an opaque source-location token. The linter
//! never computes on spans; it only copies them into diagnostics so that the
//! caller can anchor each report at the offending source position.

use vstd::prelude::*;

verus! {

/// A type expression as written in source: a named (path-like) type with its
/// generic arguments, a reference, a tuple, or a shape the model does not
/// cover (`Other`). `Other` keeps the walk total: an unmodeled shape is
/// carried through rather than rejected.
#[derive(Debug)]
pub enum TypeExpr {
    Named { name: String, args: Vec<TypeExpr>, span: usize },
    Reference { mutable: bool, inner: Box<TypeExpr>, span: usize },
    Tuple { elems: Vec<TypeExpr>, span: usize },
    Other { span: usize },
}

impl TypeExpr {
    /// The span attached to this node.
    pub fn span(&self) -> (s: usize)
        ensures
            s == self.spec_span(),
    {
        match self {
            TypeExpr::Named { span, .. } => *span,
            TypeExpr::Reference { span, .. } => *span,
            TypeExpr::Tuple { span, .. } => *span,
            TypeExpr::Other { span } => *span,
        }
    }

    pub open spec fn spec_span(&self) -> usize {
        match self {
            TypeExpr::Named { span, .. } => *span,
            TypeExpr::Reference { span, .. } => *span,
            TypeExpr::Tuple { span, .. } => *span,
            TypeExpr::Other { span } => *span,
        }
    }
}

/// One entry of a function's parameter list: either a method-style receiver
/// (never valid for a system function) or a pattern with a declared type.
/// The pattern name, when present, is only used to phrase suggestions.
#[derive(Debug)]
pub enum Parameter {
    Receiver { span: usize },
    Typed { pattern: Option<String>, ty: TypeExpr },
}

/// The signature under inspection: the function's name, its parameters in
/// declared order, and a span anchoring signature-wide diagnostics.
#[derive(Debug)]
pub struct FunctionSig {
    pub name: String,
    pub params: Vec<Parameter>,
    pub span: usize,
}

} // verus!
