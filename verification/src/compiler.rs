//! The compiler of type annotations.

use vstd::prelude::*;
use crate::error::{CompileError, TypesError};
use crate::evaluation::{
    apply_attrs, check_callee, collect_results, eval_each, eval_expr, eval_path, first_error,
    lemma_child_results, lemma_first_error_is, populate_each, populate_result, resolve_ident,
    value_as_type, Slots,
};
use crate::span::{IrSpanned, Span};
use crate::syntax::{Attr, Binding, CstStmt, CstTypeExpr, Ident, TypeExpr, TypeExprUnpack};
use crate::ty::{Ty, TyView};
use crate::type_compiled::{
    compiled_view, is_wildcard, FrozenHeap, FrozenTypeCompiled, TypeCompiled,
};
use crate::value::{Builtin, Value, ValueView};

verus! {

/// The state of one compile pass over a module.
#[derive(Debug)]
pub struct Compiler {
    /// Whether type annotations are checked at run time at all.
    pub check_types: bool,
    /// The storage of the module: one entry for each slot, empty until the
    /// variable is assigned.
    pub module_slots: Vec<Option<Value>>,
    /// The long-lived store that receives the types of the compiled module.
    pub frozen_heap: FrozenHeap,
}

/// The type that `expr_for_type` promotes for an annotation site: none where
/// types are not checked, where there is no annotation, and where the
/// annotation is the wildcard.
pub open spec fn type_to_promote(check_types: bool, expr: Option<&CstTypeExpr>) -> Option<TyView> {
    if !check_types {
        None
    } else {
        match expr {
            Some(site) => match site.compiler_ty {
                Some(ty) => if is_wildcard(ty@) {
                    None
                } else {
                    Some(ty@)
                },
                None => None,
            },
            None => None,
        }
    }
}

/// How the annotation sites of a statement look after a pass that filled
/// the first `filled` of them and left the others alone.
pub open spec fn populated_through(
    slots: Slots,
    before: Seq<CstTypeExpr>,
    after: Seq<CstTypeExpr>,
    filled: int,
) -> bool {
    &&& after.len() == before.len()
    &&& forall|i: int|
        0 <= i < filled && i < before.len() ==> {
            &&& (#[trigger] after[i]).expr == before[i].expr
            &&& after[i].span == before[i].span
            &&& after[i].compiler_ty matches Some(ty) && Ok::<TyView, CompileError>(ty@)
                == populate_result(slots, before[i])
        }
    &&& forall|i: int| filled <= i < before.len() ==> #[trigger] after[i] == before[i]
}

impl Compiler {
    /// The model of the module's storage.
    pub open spec fn slots(&self) -> Slots {
        Seq::new(
            self.module_slots@.len(),
            |i: int|
                match self.module_slots@[i] {
                    Some(value) => Some(value@),
                    None => None,
                },
        )
    }

    /// A compiler over the given module storage, with an empty store of
    /// promoted types.
    pub fn new(check_types: bool, module_slots: Vec<Option<Value>>) -> (r: Compiler)
        ensures
            r.check_types == check_types,
            r.module_slots == module_slots,
            r.frozen_heap@ == Seq::<TyView>::empty(),
    {
        Compiler { check_types, module_slots, frozen_heap: FrozenHeap::new() }
    }

    /// The value in the module slot `slot`, if it was assigned.
    pub fn get_slot(&self, slot: u32) -> (r: Option<&Value>)
        ensures
            match r {
                Some(value) => slot < self.slots().len() && self.slots()[slot as int] == Some(
                    value@,
                ),
                None => slot >= self.slots().len() || self.slots()[slot as int] is None,
            },
    {
        let at = slot as usize;
        if at < self.module_slots.len() {
            match &self.module_slots[at] {
                Some(value) => Some(value),
                None => None,
            }
        } else {
            None
        }
    }

    /// Compile expression when it is expected to be interpreted as type:
    /// the compiled type of an annotation site, moved into the long-lived
    /// store, or nothing where no check is needed at run time.
    pub fn expr_for_type(&mut self, expr: Option<&CstTypeExpr>) -> (r: Option<
        IrSpanned<FrozenTypeCompiled>,
    >)
        requires
            old(self).check_types ==> (expr matches Some(site) ==> site.compiler_ty is Some),
        ensures
            final(self).check_types == old(self).check_types,
            final(self).module_slots == old(self).module_slots,
            match type_to_promote(old(self).check_types, expr) {
                Some(ty) => {
                    &&& final(self).frozen_heap@ == old(self).frozen_heap@.push(ty)
                    &&& r == Some(
                        IrSpanned {
                            span: expr->Some_0.span,
                            node: FrozenTypeCompiled { index: old(self).frozen_heap@.len() as usize },
                        },
                    )
                },
                None => r is None && final(self).frozen_heap@ == old(self).frozen_heap@,
            },
    {
        if !self.check_types {
            return None;
        }
        let site = match expr {
            Some(site) => site,
            None => {
                return None;
            },
        };
        let span = site.span;
        let ty = match &site.compiler_ty {
            Some(ty) => ty,
            None => {
                return None;
            },
        };
        let type_value = TypeCompiled::from_ty(ty);
        if type_value.is_runtime_wildcard() {
            return None;
        }
        let node = type_value.to_frozen(&mut self.frozen_heap);
        Some(IrSpanned { span, node })
    }

    /// As `expr_for_type`, for a caller that does not know whether the
    /// annotation site was compiled: a site whose slot is empty is refused
    /// with `TypePayloadNotSet`, and nothing changes.
    pub fn try_expr_for_type(&mut self, expr: Option<&CstTypeExpr>) -> (r: Result<
        Option<IrSpanned<FrozenTypeCompiled>>,
        CompileError,
    >)
        ensures
            final(self).check_types == old(self).check_types,
            final(self).module_slots == old(self).module_slots,
            if old(self).check_types && (expr matches Some(site) && site.compiler_ty is None) {
                &&& r == Err::<Option<IrSpanned<FrozenTypeCompiled>>, CompileError>(
                    CompileError::types(TypesError::TypePayloadNotSet, expr->Some_0.span),
                )
                &&& final(self).frozen_heap@ == old(self).frozen_heap@
            } else {
                match type_to_promote(old(self).check_types, expr) {
                    Some(ty) => {
                        &&& final(self).frozen_heap@ == old(self).frozen_heap@.push(ty)
                        &&& r == Ok::<Option<IrSpanned<FrozenTypeCompiled>>, CompileError>(
                            Some(
                                IrSpanned {
                                    span: expr->Some_0.span,
                                    node: FrozenTypeCompiled {
                                        index: old(self).frozen_heap@.len() as usize,
                                    },
                                },
                            ),
                        )
                    },
                    None => {
                        &&& r == Ok::<Option<IrSpanned<FrozenTypeCompiled>>, CompileError>(None)
                        &&& final(self).frozen_heap@ == old(self).frozen_heap@
                    },
                }
            },
    {
        if self.check_types {
            match expr {
                Some(site) => {
                    if site.compiler_ty.is_none() {
                        return Err(
                            CompileError::new_types(TypesError::TypePayloadNotSet, site.span),
                        );
                    }
                },
                None => {},
            }
        }
        Ok(self.expr_for_type(expr))
    }

    /// We evaluated type expression to a value, now convert it to a compiled
    /// type.
    pub fn alloc_value_for_type(&self, value: &Value, span: Span) -> (r: Result<
        TypeCompiled,
        CompileError,
    >)
        ensures
            match value_as_type(value@, span) {
                Ok(ty) => r matches Ok(compiled) && compiled@ == ty,
                Err(e) => r == Err::<TypeCompiled, CompileError>(e),
            },
    {
        if value.is_str() {
            return Err(CompileError::new_types(TypesError::StringConstantAsType, span));
        }
        match TypeCompiled::new(value) {
            Ok(compiled) => Ok(compiled),
            Err(e) => Err(CompileError::new_value(e, span)),
        }
    }

    /// The value that an identifier stands for in a type expression.
    pub fn eval_ident_in_type_expr<'a>(&'a self, ident: &'a Ident) -> (r: Result<
        &'a Value,
        CompileError,
    >)
        ensures
            match resolve_ident(self.slots(), *ident) {
                Ok(value) => r is Ok && r->Ok_0@ == value,
                Err(e) => r == Err::<&Value, CompileError>(e),
            },
    {
        match &ident.binding {
            Binding::Unresolved => Err(
                CompileError::new_types(TypesError::UnresolvedIdentifier, ident.span),
            ),
            Binding::Local(_) => Err(
                CompileError::new_types(TypesError::LocalIdentifier, ident.span),
            ),
            Binding::Module(slot) => match self.get_slot(*slot) {
                Some(value) => Ok(value),
                None => Err(
                    CompileError::new_types(
                        TypesError::ModuleVariableNotSet(ident.name.clone()),
                        ident.span,
                    ),
                ),
            },
            Binding::Global(value) => Ok(value),
        }
    }

    /// Whether `callee` resolves to the constructor `builtin`, else the error
    /// `error` at `span`.
    fn check_callee_is(
        &self,
        callee: &Ident,
        builtin: Builtin,
        error: TypesError,
        span: Span,
    ) -> (r: Result<(), CompileError>)
        ensures
            r == check_callee(self.slots(), *callee, builtin, error, span),
    {
        match self.eval_ident_in_type_expr(callee) {
            Err(e) => Err(e),
            Ok(value) => if value.is_builtin(builtin) {
                Ok(())
            } else {
                Err(CompileError::new_types(error, span))
            },
        }
    }

    /// We may use values of the running pass as types, so identifiers are
    /// looked up here and not as in ordinary expressions.
    pub fn eval_path_as_type(&self, first: &Ident, rem: &Vec<Attr>) -> (r: Result<
        TypeCompiled,
        CompileError,
    >)
        ensures
            match eval_path(self.slots(), *first, rem@) {
                Ok(ty) => r matches Ok(compiled) && compiled@ == ty,
                Err(e) => r == Err::<TypeCompiled, CompileError>(e),
            },
    {
        let mut value: &Value = self.eval_ident_in_type_expr(first)?;
        let ghost start = value@;
        let mut i: usize = 0;
        while i < rem.len()
            invariant
                i <= rem@.len(),
                resolve_ident(self.slots(), *first) == Ok::<ValueView, CompileError>(start),
                apply_attrs(start, rem@, 0) == apply_attrs(value@, rem@, i as int),
            decreases rem@.len() - i,
        {
            let step = &rem[i];
            value = match value.get_attr_error(&step.name) {
                Ok(next) => next,
                Err(e) => {
                    return Err(CompileError::new_value(e, step.span));
                },
            };
            i = i + 1;
        }
        let mut span = first.span;
        if rem.len() > 0 {
            span = span.merge(rem[rem.len() - 1].span);
        }
        self.alloc_value_for_type(value, span)
    }

    /// The compiled types of `xs`, in order, or the first error among them.
    /// Nothing after the first error is evaluated.
    pub fn eval_all(&self, xs: &Vec<TypeExpr>) -> (r: Result<Vec<TypeCompiled>, CompileError>)
        ensures
            match collect_results(eval_each(self.slots(), xs@)) {
                Ok(tys) => r matches Ok(compiled) && compiled_view(compiled@) == tys,
                Err(e) => r == Err::<Vec<TypeCompiled>, CompileError>(e),
            },
        decreases *xs, 0nat,
    {
        let ghost results = eval_each(self.slots(), xs@);
        let mut compiled: Vec<TypeCompiled> = Vec::new();
        let mut i: usize = 0;
        while i < xs.len()
            invariant
                i <= xs@.len(),
                compiled@.len() == i,
                results == eval_each(self.slots(), xs@),
                forall|j: int|
                    0 <= j < i ==> (#[trigger] results[j]) == Ok::<TyView, CompileError>(
                        compiled@[j]@,
                    ),
            decreases xs@.len() - i,
        {
            match self.eval_expr_as_type(&xs[i]) {
                Ok(ty) => {
                    compiled.push(ty);
                },
                Err(e) => {
                    proof {
                        lemma_first_error_is(results, i as int);
                    }
                    return Err(e);
                },
            }
            i = i + 1;
        }
        proof {
            lemma_first_error_is(results, i as int);
        }
        Ok(compiled)
    }

    /// The type that a type expression denotes, or the first error met while
    /// evaluating it from left to right.
    pub fn eval_expr_as_type(&self, expr: &TypeExpr) -> (r: Result<TypeCompiled, CompileError>)
        ensures
            match eval_expr(self.slots(), *expr) {
                Ok(ty) => r matches Ok(compiled) && compiled@ == ty,
                Err(e) => r == Err::<TypeCompiled, CompileError>(e),
            },
        decreases *expr, 1nat,
    {
        match &expr.node {
            TypeExprUnpack::Path(first, rem) => self.eval_path_as_type(first, rem),
            TypeExprUnpack::Index(callee, arg) => {
                self.check_callee_is(
                    callee,
                    Builtin::List,
                    TypesError::TypeIndexOnNonList,
                    expr.span,
                )?;
                let item = self.eval_expr_as_type(&**arg)?;
                match Value::Builtin(Builtin::List).at(item.to_inner()) {
                    Ok(indexed) => self.alloc_value_for_type(&indexed, expr.span),
                    Err(e) => Err(CompileError::new_value(e, expr.span)),
                }
            },
            TypeExprUnpack::Index2(callee, arg0, arg1) => {
                self.check_callee_is(
                    callee,
                    Builtin::Dict,
                    TypesError::TypeIndexOnNonDict,
                    expr.span,
                )?;
                let key = self.eval_expr_as_type(&**arg0)?;
                let value = self.eval_expr_as_type(&**arg1)?;
                match Value::Builtin(Builtin::Dict).at2(key.to_inner(), value.to_inner()) {
                    Ok(indexed) => self.alloc_value_for_type(&indexed, expr.span),
                    Err(e) => Err(CompileError::new_value(e, expr.span)),
                }
            },
            TypeExprUnpack::Index2Ellipsis(callee, arg) => {
                self.check_callee_is(
                    callee,
                    Builtin::Tuple,
                    TypesError::TypeIndexEllipsisOnNonTuple,
                    expr.span,
                )?;
                let item = self.eval_expr_as_type(&**arg)?;
                match Value::Builtin(Builtin::Tuple).at2(item.to_inner(), Value::Ellipsis) {
                    Ok(indexed) => self.alloc_value_for_type(&indexed, expr.span),
                    Err(e) => Err(CompileError::new_value(e, expr.span)),
                }
            },
            TypeExprUnpack::Union(xs) => {
                proof {
                    lemma_child_results(self.slots(), *expr);
                }
                match self.eval_all(xs) {
                    Ok(alternatives) => Ok(TypeCompiled::type_any_of(alternatives)),
                    Err(e) => Err(e),
                }
            },
            TypeExprUnpack::Tuple(xs) => {
                proof {
                    lemma_child_results(self.slots(), *expr);
                }
                match self.eval_all(xs) {
                    Ok(items) => {
                        let tys = TypeCompiled::tys_of(&items);
                        Ok(TypeCompiled::from_ty(&Ty::tuple(tys)))
                    },
                    Err(e) => Err(e),
                }
            },
            TypeExprUnpack::Literal(name) => Ok(TypeCompiled::from_str(name.as_str())),
        }
    }

    /// Fills the slot of an annotation site with the type that its
    /// expression denotes. A site whose slot is filled already is refused
    /// and left as it is, and so is one whose expression fails.
    pub fn populate_types_in_type_expr(&mut self, type_expr: &mut CstTypeExpr) -> (r: Result<
        (),
        CompileError,
    >)
        ensures
            *final(self) == *old(self),
            match populate_result(old(self).slots(), *old(type_expr)) {
                Ok(ty) => {
                    &&& r is Ok
                    &&& final(type_expr).expr == old(type_expr).expr
                    &&& final(type_expr).span == old(type_expr).span
                    &&& final(type_expr).compiler_ty matches Some(filled) && filled@ == ty
                },
                Err(e) => r == Err::<(), CompileError>(e) && *final(type_expr) == *old(type_expr),
            },
    {
        if type_expr.compiler_ty.is_some() {
            return Err(CompileError::new_types(TypesError::TypeAlreadySet, type_expr.span));
        }
        let type_value = self.eval_expr_as_type(&type_expr.expr)?;
        type_expr.compiler_ty = Some(type_value.into_ty());
        Ok(())
    }

    /// Fills the slots of the annotation sites of a statement, in source
    /// order. The first error ends the walk: the sites before it are
    /// filled, the failing one and those after it are as they were.
    pub fn populate_types_in_stmt(&mut self, stmt: &mut CstStmt) -> (r: Result<(), CompileError>)
        ensures
            *final(self) == *old(self),
            populated_through(
                old(self).slots(),
                old(stmt).type_exprs@,
                final(stmt).type_exprs@,
                first_error(populate_each(old(self).slots(), old(stmt).type_exprs@)),
            ),
            match collect_results(populate_each(old(self).slots(), old(stmt).type_exprs@)) {
                Ok(_) => r is Ok,
                Err(e) => r == Err::<(), CompileError>(e),
            },
    {
        let ghost slots = self.slots();
        let ghost results = populate_each(slots, stmt.type_exprs@);
        let n = stmt.type_exprs.len();
        let mut i: usize = 0;
        while i < n
            invariant
                i <= n,
                n == old(stmt).type_exprs@.len(),
                *self == *old(self),
                slots == old(self).slots(),
                results == populate_each(slots, old(stmt).type_exprs@),
                populated_through(slots, old(stmt).type_exprs@, stmt.type_exprs@, i as int),
                forall|j: int| 0 <= j < i ==> (#[trigger] results[j]) is Ok,
            decreases n - i,
        {
            match self.populate_types_in_type_expr(&mut stmt.type_exprs[i]) {
                Ok(_) => {},
                Err(e) => {
                    proof {
                        lemma_first_error_is(results, i as int);
                    }
                    return Err(e);
                },
            }
            i = i + 1;
        }
        proof {
            lemma_first_error_is(results, i as int);
        }
        Ok(())
    }
}

} // verus!
