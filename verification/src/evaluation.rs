//! What a type expression evaluates to.

use vstd::prelude::*;
use crate::error::{CompileError, TypesError, ValueError};
use crate::span::Span;
use crate::syntax::{Attr, Binding, CstTypeExpr, Ident, TypeExpr, TypeExprUnpack};
use crate::ty::TyView;
use crate::value::{Builtin, ValueView};

verus! {

/// The storage of a module: for each slot the value that it holds, if it was
/// assigned yet.
pub type Slots = Seq<Option<ValueView>>;

/// The index of the first error in `results` at or after `from`, or the
/// length of `results` where there is none.
pub open spec fn first_error_from<T>(results: Seq<Result<T, CompileError>>, from: int) -> int
    decreases results.len() - from,
{
    if from < 0 || from >= results.len() {
        results.len() as int
    } else if results[from] is Err {
        from
    } else {
        first_error_from(results, from + 1)
    }
}

/// The index of the first error in `results`, or their number where none
/// failed.
pub open spec fn first_error<T>(results: Seq<Result<T, CompileError>>) -> int {
    first_error_from(results, 0)
}

/// The outcome of steps that run in order and stop at the first error: that
/// error, or the values of all of them.
pub open spec fn collect_results<T>(results: Seq<Result<T, CompileError>>) -> Result<
    Seq<T>,
    CompileError,
> {
    let failed = first_error(results);
    if failed < results.len() {
        Err(results[failed]->Err_0)
    } else {
        Ok(Seq::new(results.len(), |i: int| results[i]->Ok_0))
    }
}

/// The value that an identifier stands for in a type expression.
pub open spec fn resolve_ident(slots: Slots, ident: Ident) -> Result<ValueView, CompileError> {
    match ident.binding {
        Binding::Unresolved => Err(
            CompileError::types(TypesError::UnresolvedIdentifier, ident.span),
        ),
        Binding::Local(_) => Err(CompileError::types(TypesError::LocalIdentifier, ident.span)),
        Binding::Module(slot) => if slot < slots.len() && slots[slot as int] is Some {
            Ok(slots[slot as int]->Some_0)
        } else {
            Err(CompileError::types(TypesError::ModuleVariableNotSet(ident.name), ident.span))
        },
        Binding::Global(value) => Ok(value@),
    }
}

/// The type that a value stands for where `span` expects a type. A string
/// never stands for a type.
pub open spec fn value_as_type(value: ValueView, span: Span) -> Result<TyView, CompileError> {
    if value is Str {
        Err(CompileError::types(TypesError::StringConstantAsType, span))
    } else {
        match value.as_type() {
            Some(ty) => Ok(ty),
            None => Err(CompileError::value(ValueError::NotAType, span)),
        }
    }
}

/// The value reached from `value` by the attribute steps of `attrs` at and
/// after `from`, in order.
pub open spec fn apply_attrs(value: ValueView, attrs: Seq<Attr>, from: int) -> Result<
    ValueView,
    CompileError,
>
    decreases attrs.len() - from,
{
    if from < 0 || from >= attrs.len() {
        Ok(value)
    } else {
        match value.get_attr(attrs[from].name@) {
            Some(next) => apply_attrs(next, attrs, from + 1),
            None => Err(
                CompileError::value(ValueError::NoAttribute(attrs[from].name), attrs[from].span),
            ),
        }
    }
}

/// The span of a path: from its identifier to its last attribute.
pub open spec fn path_span(first: Ident, rem: Seq<Attr>) -> Span {
    if rem.len() == 0 {
        first.span
    } else {
        first.span.merge(rem.last().span)
    }
}

/// The type that the path `first.rem` names.
pub open spec fn eval_path(slots: Slots, first: Ident, rem: Seq<Attr>) -> Result<
    TyView,
    CompileError,
> {
    match resolve_ident(slots, first) {
        Err(e) => Err(e),
        Ok(value) => match apply_attrs(value, rem, 0) {
            Err(e) => Err(e),
            Ok(value) => value_as_type(value, path_span(first, rem)),
        },
    }
}

/// The callee of an indexing expression: it must resolve to `builtin`
/// itself, else `error` is raised at `span`.
pub open spec fn check_callee(
    slots: Slots,
    callee: Ident,
    builtin: Builtin,
    error: TypesError,
    span: Span,
) -> Result<(), CompileError> {
    match resolve_ident(slots, callee) {
        Err(e) => Err(e),
        Ok(value) => if value == ValueView::Builtin(builtin) {
            Ok(())
        } else {
            Err(CompileError::types(error, span))
        },
    }
}

/// What the children of a union or of a tuple evaluate to, in order.
pub open spec fn child_results(slots: Slots, expr: TypeExpr) -> Seq<Result<TyView, CompileError>>
    decreases expr, 0nat,
{
    match expr.node {
        TypeExprUnpack::Union(xs) | TypeExprUnpack::Tuple(xs) => Seq::new(
            xs@.len(),
            |i: int|
                if 0 <= i < xs@.len() {
                    eval_expr(slots, xs@[i])
                } else {
                    Ok(TyView::Any)
                },
        ),
        _ => Seq::empty(),
    }
}

/// The type that a type expression denotes, or the first error met while
/// evaluating it from left to right.
pub open spec fn eval_expr(slots: Slots, expr: TypeExpr) -> Result<TyView, CompileError>
    decreases expr, 1nat,
{
    match expr.node {
        TypeExprUnpack::Path(first, rem) => eval_path(slots, first, rem@),
        TypeExprUnpack::Index(callee, arg) => match check_callee(
            slots,
            callee,
            Builtin::List,
            TypesError::TypeIndexOnNonList,
            expr.span,
        ) {
            Err(e) => Err(e),
            Ok(_) => match eval_expr(slots, *arg) {
                Err(e) => Err(e),
                Ok(item) => Ok(TyView::List(Box::new(item))),
            },
        },
        TypeExprUnpack::Index2(callee, arg0, arg1) => match check_callee(
            slots,
            callee,
            Builtin::Dict,
            TypesError::TypeIndexOnNonDict,
            expr.span,
        ) {
            Err(e) => Err(e),
            Ok(_) => match eval_expr(slots, *arg0) {
                Err(e) => Err(e),
                Ok(key) => match eval_expr(slots, *arg1) {
                    Err(e) => Err(e),
                    Ok(value) => Ok(TyView::Dict(Box::new(key), Box::new(value))),
                },
            },
        },
        TypeExprUnpack::Index2Ellipsis(callee, arg) => match check_callee(
            slots,
            callee,
            Builtin::Tuple,
            TypesError::TypeIndexEllipsisOnNonTuple,
            expr.span,
        ) {
            Err(e) => Err(e),
            Ok(_) => match eval_expr(slots, *arg) {
                Err(e) => Err(e),
                Ok(item) => Ok(TyView::TupleOf(Box::new(item))),
            },
        },
        TypeExprUnpack::Union(xs) => match collect_results(child_results(slots, expr)) {
            Err(e) => Err(e),
            Ok(alternatives) => Ok(TyView::AnyOf(alternatives)),
        },
        TypeExprUnpack::Tuple(xs) => match collect_results(child_results(slots, expr)) {
            Err(e) => Err(e),
            Ok(items) => Ok(TyView::Tuple(items)),
        },
        TypeExprUnpack::Literal(name) => Ok(TyView::Name(name@)),
    }
}

/// What each of `xs` evaluates to, in order.
pub open spec fn eval_each(slots: Slots, xs: Seq<TypeExpr>) -> Seq<Result<TyView, CompileError>> {
    Seq::new(xs.len(), |i: int| eval_expr(slots, xs[i]))
}

/// What populating an annotation site yields: an error where its slot is
/// filled already, else what its expression evaluates to.
pub open spec fn populate_result(slots: Slots, site: CstTypeExpr) -> Result<TyView, CompileError> {
    if site.compiler_ty is Some {
        Err(CompileError::types(TypesError::TypeAlreadySet, site.span))
    } else {
        eval_expr(slots, site.expr)
    }
}

/// What populating each of `sites` yields, in order.
pub open spec fn populate_each(slots: Slots, sites: Seq<CstTypeExpr>) -> Seq<
    Result<TyView, CompileError>,
> {
    Seq::new(sites.len(), |i: int| populate_result(slots, sites[i]))
}

/// What `first_error_from` returns is the least index at or after `from`
/// that holds an error.
pub proof fn lemma_first_error_from<T>(results: Seq<Result<T, CompileError>>, from: int)
    requires
        0 <= from <= results.len(),
    ensures
        from <= first_error_from(results, from) <= results.len(),
        first_error_from(results, from) < results.len() ==> results[first_error_from(
            results,
            from,
        )] is Err,
        forall|j: int| from <= j < first_error_from(results, from) ==> (#[trigger] results[j]) is Ok,
    decreases results.len() - from,
{
    if from < results.len() && results[from] is Ok {
        lemma_first_error_from(results, from + 1);
    }
}

/// Where everything before `at` succeeded, the first error is at `at` if
/// that step failed, and there is none if `at` is the number of steps.
pub proof fn lemma_first_error_is<T>(results: Seq<Result<T, CompileError>>, at: int)
    requires
        0 <= at <= results.len(),
        forall|j: int| 0 <= j < at ==> (#[trigger] results[j]) is Ok,
        at < results.len() ==> results[at] is Err,
    ensures
        first_error(results) == at,
{
    lemma_first_error_from(results, 0);
}

/// The children of a union or of a tuple are evaluated one by one, in
/// order.
pub proof fn lemma_child_results(slots: Slots, expr: TypeExpr)
    ensures
        expr.node matches TypeExprUnpack::Union(xs) ==> child_results(slots, expr) == eval_each(
            slots,
            xs@,
        ),
        expr.node matches TypeExprUnpack::Tuple(xs) ==> child_results(slots, expr) == eval_each(
            slots,
            xs@,
        ),
{
}

} // verus!
