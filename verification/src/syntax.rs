//! The parsed form of type annotations.

use vstd::prelude::*;
use crate::span::Span;
use crate::ty::Ty;
use crate::value::Value;

verus! {

/// What an identifier was resolved to before type annotations are compiled.
#[derive(Debug, PartialEq, Eq)]
pub enum Binding {
    /// No resolution took place.
    Unresolved,
    /// A local variable, by its slot.
    Local(u32),
    /// A variable of the module, by its slot.
    Module(u32),
    /// A global, by its value.
    Global(Value),
}

/// An identifier in read position.
#[derive(Debug, PartialEq, Eq)]
pub struct Ident {
    pub name: String,
    pub span: Span,
    pub binding: Binding,
}

/// One `.name` step of a path.
#[derive(Debug, PartialEq, Eq)]
pub struct Attr {
    pub name: String,
    pub span: Span,
}

/// The shapes of a type expression.
#[derive(Debug, PartialEq, Eq)]
pub enum TypeExprUnpack {
    /// `a.b.c`.
    Path(Ident, Vec<Attr>),
    /// `list[str]`.
    Index(Ident, Box<TypeExpr>),
    /// `dict[str, int]`.
    Index2(Ident, Box<TypeExpr>, Box<TypeExpr>),
    /// `tuple[str, ...]`.
    Index2Ellipsis(Ident, Box<TypeExpr>),
    /// `int | str`.
    Union(Vec<TypeExpr>),
    /// `(int, str)`.
    Tuple(Vec<TypeExpr>),
    /// A type named by a string literal.
    Literal(String),
}

/// A type expression with its place in the source.
#[derive(Debug, PartialEq, Eq)]
pub struct TypeExpr {
    pub node: TypeExprUnpack,
    pub span: Span,
}

/// An annotation site: a type expression and the slot that caches its
/// compiled type. The slot starts empty and is filled at most once.
#[derive(Debug, PartialEq, Eq)]
pub struct CstTypeExpr {
    pub expr: TypeExpr,
    pub span: Span,
    pub compiler_ty: Option<Ty>,
}

/// A statement, as the annotation sites that it holds, in source order.
#[derive(Debug, PartialEq, Eq)]
pub struct CstStmt {
    pub type_exprs: Vec<CstTypeExpr>,
}

impl CstTypeExpr {
    /// An annotation site that is not compiled yet.
    pub fn new(expr: TypeExpr) -> (r: CstTypeExpr)
        ensures
            r.expr == expr,
            r.span == expr.span,
            r.compiler_ty is None,
    {
        let span = expr.span;
        CstTypeExpr { expr, span, compiler_ty: None }
    }
}

} // verus!
