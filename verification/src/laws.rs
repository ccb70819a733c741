//! Laws of the compilation of type annotations, proved from the
//! definitions of `evaluation` and `compiler`.

use vstd::prelude::*;
use crate::compiler::{populated_through, type_to_promote};
use crate::error::{CompileError, TypesError};
use crate::evaluation::{
    apply_attrs, collect_results, eval_each, eval_expr, first_error, lemma_child_results,
    lemma_first_error_is, path_span, populate_each, populate_result, resolve_ident, Slots,
};
use crate::syntax::{Binding, CstTypeExpr, Ident, TypeExpr, TypeExprUnpack};
use crate::ty::TyView;
use crate::type_compiled::{is_wildcard, ty_matches};
use crate::value::{Builtin, ValueView};

verus! {

/// The identifier that a type expression starts with: the head of a path,
/// or the callee of an indexing. Unions, tuples and literals have none.
pub open spec fn leading_ident(expr: TypeExpr) -> Option<Ident> {
    match expr.node {
        TypeExprUnpack::Path(first, _) => Some(first),
        TypeExprUnpack::Index(callee, _) => Some(callee),
        TypeExprUnpack::Index2(callee, _, _) => Some(callee),
        TypeExprUnpack::Index2Ellipsis(callee, _) => Some(callee),
        _ => None,
    }
}

/// Where the identifier that a type expression starts with does not
/// resolve, the expression fails with that identifier's error, whatever
/// else it holds.
pub proof fn lemma_leading_ident_error(slots: Slots, expr: TypeExpr)
    requires
        leading_ident(expr) matches Some(ident) && resolve_ident(slots, ident) is Err,
    ensures
        eval_expr(slots, expr) == Err::<TyView, CompileError>(
            resolve_ident(slots, leading_ident(expr)->Some_0)->Err_0,
        ),
{
}

/// A local variable in type position fails with `LocalIdentifier` at the
/// identifier, whatever the module holds and whatever the variable's slot.
pub proof fn lemma_local_identifier_is_refused(slots: Slots, expr: TypeExpr)
    requires
        leading_ident(expr) matches Some(ident) && ident.binding is Local,
    ensures
        eval_expr(slots, expr) == Err::<TyView, CompileError>(
            CompileError::types(TypesError::LocalIdentifier, leading_ident(expr)->Some_0.span),
        ),
{
}

/// An identifier without a binding in type position fails with
/// `UnresolvedIdentifier` at the identifier.
pub proof fn lemma_unresolved_identifier_is_refused(slots: Slots, expr: TypeExpr)
    requires
        leading_ident(expr) matches Some(ident) && ident.binding is Unresolved,
    ensures
        eval_expr(slots, expr) == Err::<TyView, CompileError>(
            CompileError::types(
                TypesError::UnresolvedIdentifier,
                leading_ident(expr)->Some_0.span,
            ),
        ),
{
}

/// A module variable in type position that is not assigned yet fails with
/// `ModuleVariableNotSet`, which carries the variable's name.
pub proof fn lemma_unset_module_variable_is_refused(slots: Slots, expr: TypeExpr)
    requires
        leading_ident(expr) matches Some(ident) && (ident.binding matches Binding::Module(slot) && (
        slot >= slots.len() || slots[slot as int] is None)),
    ensures
        eval_expr(slots, expr) == Err::<TyView, CompileError>(
            CompileError::types(
                TypesError::ModuleVariableNotSet(leading_ident(expr)->Some_0.name),
                leading_ident(expr)->Some_0.span,
            ),
        ),
{
}

/// `x[a]` is the list of `a` where `x` is the `list` constructor itself,
/// and fails with `TypeIndexOnNonList` at the expression for every other
/// value of `x`, before `a` is looked at.
pub proof fn lemma_index_only_on_list(slots: Slots, expr: TypeExpr)
    requires
        expr.node matches TypeExprUnpack::Index(callee, _) && resolve_ident(slots, callee) is Ok,
    ensures
        ({
            let callee = expr.node->Index_0;
            let arg = *expr.node->Index_1;
            if resolve_ident(slots, callee)->Ok_0 == ValueView::Builtin(Builtin::List) {
                eval_expr(slots, expr) == match eval_expr(slots, arg) {
                    Ok(item) => Ok::<TyView, CompileError>(TyView::List(Box::new(item))),
                    Err(e) => Err(e),
                }
            } else {
                eval_expr(slots, expr) == Err::<TyView, CompileError>(
                    CompileError::types(TypesError::TypeIndexOnNonList, expr.span),
                )
            }
        }),
{
}

/// `x[a, b]` is the dictionary from `a` to `b` where `x` is the `dict`
/// constructor itself, and fails with `TypeIndexOnNonDict` at the
/// expression for every other value of `x`, before `a` and `b` are looked
/// at. Of `a` and `b`, `a` is evaluated first.
pub proof fn lemma_index2_only_on_dict(slots: Slots, expr: TypeExpr)
    requires
        expr.node matches TypeExprUnpack::Index2(callee, _, _) && resolve_ident(slots, callee) is Ok,
    ensures
        ({
            let callee = expr.node->Index2_0;
            let arg0 = *expr.node->Index2_1;
            let arg1 = *expr.node->Index2_2;
            if resolve_ident(slots, callee)->Ok_0 == ValueView::Builtin(Builtin::Dict) {
                eval_expr(slots, expr) == match eval_expr(slots, arg0) {
                    Ok(key) => match eval_expr(slots, arg1) {
                        Ok(value) => Ok::<TyView, CompileError>(
                            TyView::Dict(Box::new(key), Box::new(value)),
                        ),
                        Err(e) => Err(e),
                    },
                    Err(e) => Err(e),
                }
            } else {
                eval_expr(slots, expr) == Err::<TyView, CompileError>(
                    CompileError::types(TypesError::TypeIndexOnNonDict, expr.span),
                )
            }
        }),
{
}

/// `x[a, ...]` is the tuple of any number of `a` where `x` is the `tuple`
/// constructor itself, and fails with `TypeIndexEllipsisOnNonTuple` at the
/// expression for every other value of `x`, before `a` is looked at.
pub proof fn lemma_index2_ellipsis_only_on_tuple(slots: Slots, expr: TypeExpr)
    requires
        expr.node matches TypeExprUnpack::Index2Ellipsis(callee, _) && resolve_ident(
            slots,
            callee,
        ) is Ok,
    ensures
        ({
            let callee = expr.node->Index2Ellipsis_0;
            let arg = *expr.node->Index2Ellipsis_1;
            if resolve_ident(slots, callee)->Ok_0 == ValueView::Builtin(Builtin::Tuple) {
                eval_expr(slots, expr) == match eval_expr(slots, arg) {
                    Ok(item) => Ok::<TyView, CompileError>(TyView::TupleOf(Box::new(item))),
                    Err(e) => Err(e),
                }
            } else {
                eval_expr(slots, expr) == Err::<TyView, CompileError>(
                    CompileError::types(TypesError::TypeIndexEllipsisOnNonTuple, expr.span),
                )
            }
        }),
{
}

/// A string is never a type when it is reached as a value: a path that
/// leads to a string fails with `StringConstantAsType` at the path. A
/// string literal in type position names the type of that name.
pub proof fn lemma_strings_as_types(slots: Slots, path: TypeExpr, literal: TypeExpr)
    requires
        path.node matches TypeExprUnpack::Path(first, rem) && (resolve_ident(slots, first) matches Ok(
            start,
        ) && (apply_attrs(start, rem@, 0) matches Ok(value) && value is Str)),
        literal.node is Literal,
    ensures
        eval_expr(slots, path) == Err::<TyView, CompileError>(
            CompileError::types(
                TypesError::StringConstantAsType,
                path_span(path.node->Path_0, path.node->Path_1@),
            ),
        ),
        eval_expr(slots, literal) == Ok::<TyView, CompileError>(
            TyView::Name(literal.node->Literal_0@),
        ),
{
}

/// Steps that run in order and stop at the first error yield that error,
/// whatever stands after the step that failed.
pub proof fn lemma_stops_at_first_error<T>(
    a: Seq<Result<T, CompileError>>,
    b: Seq<Result<T, CompileError>>,
    at: int,
)
    requires
        0 <= at < a.len(),
        at < b.len(),
        forall|j: int| 0 <= j <= at ==> a[j] == b[j],
        forall|j: int| 0 <= j < at ==> (#[trigger] a[j]) is Ok,
        a[at] is Err,
    ensures
        collect_results(a) == Err::<Seq<T>, CompileError>(a[at]->Err_0),
        collect_results(b) == collect_results(a),
{
    lemma_first_error_is(a, at);
    lemma_first_error_is(b, at);
}

/// Steps that all succeed yield their values, in order.
pub proof fn lemma_all_succeed<T>(a: Seq<Result<T, CompileError>>)
    requires
        forall|j: int| 0 <= j < a.len() ==> (#[trigger] a[j]) is Ok,
    ensures
        collect_results(a) == Ok::<Seq<T>, CompileError>(Seq::new(a.len(), |i: int| a[i]->Ok_0)),
{
    lemma_first_error_is(a, a.len() as int);
}

/// The children of a union or of a tuple: none for another shape.
pub open spec fn children(expr: TypeExpr) -> Seq<TypeExpr> {
    match expr.node {
        TypeExprUnpack::Union(xs) => xs@,
        TypeExprUnpack::Tuple(xs) => xs@,
        _ => Seq::empty(),
    }
}

/// A union and a tuple stop at their first failing child: they fail with
/// its error, and the children after it have no part in the outcome. Two
/// unions, or two tuples, that agree up to that child evaluate alike.
pub proof fn lemma_children_after_failure_are_ignored(
    slots: Slots,
    x: TypeExpr,
    y: TypeExpr,
    at: int,
)
    requires
        (x.node is Union && y.node is Union) || (x.node is Tuple && y.node is Tuple),
        0 <= at < children(x).len(),
        at < children(y).len(),
        forall|j: int| 0 <= j <= at ==> children(x)[j] == children(y)[j],
        forall|j: int| 0 <= j < at ==> eval_expr(slots, #[trigger] children(x)[j]) is Ok,
        eval_expr(slots, children(x)[at]) is Err,
    ensures
        eval_expr(slots, x) == Err::<TyView, CompileError>(
            eval_expr(slots, children(x)[at])->Err_0,
        ),
        eval_expr(slots, y) == eval_expr(slots, x),
{
    lemma_child_results(slots, x);
    lemma_child_results(slots, y);
    let a = eval_each(slots, children(x));
    let b = eval_each(slots, children(y));
    lemma_stops_at_first_error(a, b, at);
}

/// A union whose children all evaluate is the union of their types, in
/// order, and a tuple is the tuple of them. The empty union is the type
/// of no value, the empty tuple the type of the empty tuple.
pub proof fn lemma_children_all_evaluate(slots: Slots, x: TypeExpr)
    requires
        x.node is Union || x.node is Tuple,
        forall|j: int|
            0 <= j < children(x).len() ==> eval_expr(slots, #[trigger] children(x)[j]) is Ok,
    ensures
        x.node is Union ==> eval_expr(slots, x) == Ok::<TyView, CompileError>(
            TyView::AnyOf(
                Seq::new(children(x).len(), |i: int| eval_expr(slots, children(x)[i])->Ok_0),
            ),
        ),
        x.node is Tuple ==> eval_expr(slots, x) == Ok::<TyView, CompileError>(
            TyView::Tuple(
                Seq::new(children(x).len(), |i: int| eval_expr(slots, children(x)[i])->Ok_0),
            ),
        ),
{
    lemma_child_results(slots, x);
    let a = eval_each(slots, children(x));
    lemma_all_succeed(a);
    assert(Seq::new(a.len(), |i: int| a[i]->Ok_0) =~= Seq::new(
        children(x).len(),
        |i: int| eval_expr(slots, children(x)[i])->Ok_0,
    ));
}

/// An annotation site whose slot is filled is refused with
/// `TypeAlreadySet`, which is an internal error, whatever its expression.
pub proof fn lemma_filled_site_is_refused(slots: Slots, site: CstTypeExpr)
    requires
        site.compiler_ty is Some,
    ensures
        populate_result(slots, site) == Err::<TyView, CompileError>(
            CompileError::types(TypesError::TypeAlreadySet, site.span),
        ),
        populate_result(slots, site)->Err_0.is_internal(),
{
}

/// A second pass over a statement never fills a slot again. Where the
/// first pass filled the first site, the second is refused at that site
/// with `TypeAlreadySet`. Where the first pass failed at the first site, it
/// changed nothing and the second fails as the first did.
pub proof fn lemma_second_pass_is_refused(
    slots: Slots,
    before: Seq<CstTypeExpr>,
    after: Seq<CstTypeExpr>,
)
    requires
        before.len() > 0,
        populated_through(slots, before, after, first_error(populate_each(slots, before))),
    ensures
        first_error(populate_each(slots, before)) > 0 ==> collect_results(
            populate_each(slots, after),
        ) == Err::<Seq<TyView>, CompileError>(
            CompileError::types(TypesError::TypeAlreadySet, before[0].span),
        ),
        first_error(populate_each(slots, before)) == 0 ==> after == before,
{
}

/// The union of the integers and the strings has exactly the integers and
/// the strings: no float, and no other value.
pub proof fn lemma_union_of_int_and_string(v: ValueView)
    ensures
        ty_matches(TyView::AnyOf(seq![TyView::Name("int"@), TyView::Name("string"@)]), v) == (v is Int
            || v is Str),
{
    reveal_strlit("NoneType");
    reveal_strlit("bool");
    reveal_strlit("int");
    reveal_strlit("float");
    reveal_strlit("string");
    reveal_strlit("list");
    reveal_strlit("tuple");
    reveal_strlit("dict");
    reveal_strlit("ellipsis");
    reveal_strlit("function");
    reveal_strlit("type");
    reveal_strlit("struct");
    let union = TyView::AnyOf(seq![TyView::Name("int"@), TyView::Name("string"@)]);
    let alternatives = union->AnyOf_0;
    assert(alternatives.len() == 2);
    assert(alternatives[0] == TyView::Name("int"@));
    assert(alternatives[1] == TyView::Name("string"@));
    if v is Int {
        assert(ty_matches(alternatives[0], v));
    }
    if v is Str {
        assert(ty_matches(alternatives[1], v));
    }
    if ty_matches(union, v) {
        let i = choose|i: int|
            0 <= i < alternatives.len() && ty_matches(#[trigger] alternatives[i], v);
        assert(v.get_type() == "int"@ || v.get_type() == "string"@);
        // Of the other type names only "struct" is as long as one of the
        // two, and it differs from "string" in its fourth letter.
        assert("struct"@[3] != "string"@[3]);
        assert(v.get_type().len() == 3 || v.get_type().len() == 6);
    }
}

/// No type is promoted for an annotation whose type is the wildcard.
pub proof fn lemma_wildcard_is_not_promoted(check_types: bool, site: CstTypeExpr)
    requires
        site.compiler_ty matches Some(ty) && is_wildcard(ty@),
    ensures
        type_to_promote(check_types, Some(&site)) is None,
{
}

} // verus!
