//! Compiled types: a type descriptor together with the test that decides
//! whether a value is of that type.

use vstd::prelude::*;
use vstd::string::StringExecFns;
use crate::error::ValueError;
use crate::ty::{tys_view, Ty, TyView};
use crate::value::{entries_view, values_view, Value, ValueView};

verus! {

/// Whether the value `v` is of the type `ty`.
pub open spec fn ty_matches(ty: TyView, v: ValueView) -> bool
    decreases ty,
{
    match ty {
        TyView::Any => true,
        TyView::Name(name) => v.get_type() == name,
        TyView::List(item) => v matches ValueView::List(xs) && forall|i: int|
            0 <= i < xs.len() ==> ty_matches(*item, #[trigger] xs[i]),
        TyView::Dict(key, value) => v matches ValueView::Dict(es) && forall|i: int|
            0 <= i < es.len() ==> ty_matches(*key, (#[trigger] es[i]).0) && ty_matches(
                *value,
                es[i].1,
            ),
        TyView::Tuple(items) => v matches ValueView::Tuple(xs) && xs.len() == items.len()
            && forall|i: int| 0 <= i < items.len() ==> ty_matches(#[trigger] items[i], xs[i]),
        TyView::TupleOf(item) => v matches ValueView::Tuple(xs) && forall|i: int|
            0 <= i < xs.len() ==> ty_matches(*item, #[trigger] xs[i]),
        TyView::AnyOf(alternatives) => exists|i: int|
            0 <= i < alternatives.len() && ty_matches(#[trigger] alternatives[i], v),
    }
}

/// Whether `ty` is the wildcard: the type of every value, or a union with
/// such an alternative.
pub open spec fn is_wildcard(ty: TyView) -> bool
    decreases ty,
{
    match ty {
        TyView::Any => true,
        TyView::AnyOf(alternatives) => exists|i: int|
            0 <= i < alternatives.len() && is_wildcard(#[trigger] alternatives[i]),
        _ => false,
    }
}

/// Every value is of a wildcard type.
pub proof fn lemma_wildcard_matches_every_value(ty: TyView, v: ValueView)
    requires
        is_wildcard(ty),
    ensures
        ty_matches(ty, v),
    decreases ty,
{
    match ty {
        TyView::AnyOf(alternatives) => {
            let i = choose|i: int| 0 <= i < alternatives.len() && is_wildcard(#[trigger] alternatives[i]);
            lemma_wildcard_matches_every_value(alternatives[i], v);
        },
        _ => {},
    }
}

/// Whether the value `v` is of the type `ty`.
#[verifier::loop_isolation(false)]
pub fn matches_value(ty: &Ty, v: &Value) -> (r: bool)
    ensures
        r == ty_matches(ty@, v@),
    decreases *ty, 0nat,
{
    match ty {
        Ty::Any => true,
        Ty::Name(name) => v.get_type() == *name,
        Ty::List(item) => match v {
            Value::List(xs) => {
                assert(v@->List_0 == values_view(xs@));
                all_match(&**item, xs)
            },
            _ => false,
        },
        Ty::Dict(key, value) => match v {
            Value::Dict(es) => {
                proof {
                    Value::lemma_view_of_entries(*es);
                }
                let mut i: usize = 0;
                while i < es.len()
                    invariant
                        i <= es@.len(),
                        forall|j: int|
                            0 <= j < i ==> ty_matches(key@, (#[trigger] entries_view(es@)[j]).0)
                                && ty_matches(value@, entries_view(es@)[j].1),
                    decreases es@.len() - i,
                {
                    if !matches_value(&**key, &es[i].0) || !matches_value(&**value, &es[i].1) {
                        assert(!(ty_matches(key@, v@->Dict_0[i as int].0) && ty_matches(
                            value@,
                            v@->Dict_0[i as int].1,
                        )));
                        return false;
                    }
                    i = i + 1;
                }
                true
            },
            _ => false,
        },
        Ty::Tuple(items) => match v {
            Value::Tuple(xs) => {
                proof {
                    Ty::lemma_view_of_children(*items);
                }
                if xs.len() != items.len() {
                    return false;
                }
                let mut i: usize = 0;
                while i < items.len()
                    invariant
                        i <= items@.len(),
                        forall|j: int|
                            0 <= j < i ==> ty_matches(
                                #[trigger] tys_view(items@)[j],
                                values_view(xs@)[j],
                            ),
                    decreases items@.len() - i,
                {
                    if !matches_value(&items[i], &xs[i]) {
                        assert(!ty_matches(ty@->Tuple_0[i as int], v@->Tuple_0[i as int]));
                        return false;
                    }
                    i = i + 1;
                }
                true
            },
            _ => false,
        },
        Ty::TupleOf(item) => match v {
            Value::Tuple(xs) => {
                assert(v@->Tuple_0 == values_view(xs@));
                all_match(&**item, xs)
            },
            _ => false,
        },
        Ty::AnyOf(alternatives) => {
            proof {
                Ty::lemma_view_of_children(*alternatives);
            }
            let mut i: usize = 0;
            while i < alternatives.len()
                invariant
                    i <= alternatives@.len(),
                    forall|j: int|
                        0 <= j < i ==> !ty_matches(#[trigger] tys_view(alternatives@)[j], v@),
                decreases alternatives@.len() - i,
            {
                if matches_value(&alternatives[i], v) {
                    assert(ty_matches(ty@->AnyOf_0[i as int], v@));
                    return true;
                }
                i = i + 1;
            }
            false
        },
    }
}

/// Whether every value in `xs` is of the type `ty`.
pub fn all_match(ty: &Ty, xs: &Vec<Value>) -> (r: bool)
    ensures
        r == forall|i: int|
            0 <= i < xs@.len() ==> ty_matches(ty@, #[trigger] values_view(xs@)[i]),
    decreases *ty, 1nat,
{
    let mut i: usize = 0;
    while i < xs.len()
        invariant
            i <= xs@.len(),
            forall|j: int| 0 <= j < i ==> ty_matches(ty@, #[trigger] values_view(xs@)[j]),
        decreases xs@.len() - i,
    {
        if !matches_value(ty, &xs[i]) {
            assert(!ty_matches(ty@, values_view(xs@)[i as int]));
            return false;
        }
        i = i + 1;
    }
    true
}

/// Whether `ty` is the wildcard.
#[verifier::loop_isolation(false)]
pub fn ty_is_wildcard(ty: &Ty) -> (r: bool)
    ensures
        r == is_wildcard(ty@),
    decreases *ty,
{
    match ty {
        Ty::Any => true,
        Ty::AnyOf(alternatives) => {
            proof {
                Ty::lemma_view_of_children(*alternatives);
            }
            let mut i: usize = 0;
            while i < alternatives.len()
                invariant
                    i <= alternatives@.len(),
                    forall|j: int|
                        0 <= j < i ==> !is_wildcard(#[trigger] tys_view(alternatives@)[j]),
                decreases alternatives@.len() - i,
            {
                if ty_is_wildcard(&alternatives[i]) {
                    assert(is_wildcard(ty@->AnyOf_0[i as int]));
                    return true;
                }
                i = i + 1;
            }
            false
        },
        _ => false,
    }
}

/// A compiled type of the running compile pass.
#[derive(Debug, PartialEq, Eq)]
pub struct TypeCompiled {
    ty: Ty,
}

/// The models of a sequence of compiled types, in order.
pub open spec fn compiled_view(xs: Seq<TypeCompiled>) -> Seq<TyView> {
    Seq::new(xs.len(), |i: int| xs[i]@)
}

impl View for TypeCompiled {
    type V = TyView;

    closed spec fn view(&self) -> TyView {
        self.ty@
    }
}

impl TypeCompiled {
    /// The compiled form of `ty`.
    pub fn from_ty(ty: &Ty) -> (r: TypeCompiled)
        ensures
            r@ == ty@,
    {
        TypeCompiled { ty: ty.clone() }
    }

    /// The type that the literal `name` names.
    pub fn from_str(name: &str) -> (r: TypeCompiled)
        ensures
            r@ == TyView::Name(name@),
    {
        TypeCompiled { ty: Ty::Name(String::from_str(name)) }
    }

    /// The type that `value` denotes, or the error that it denotes none.
    pub fn new(value: &Value) -> (r: Result<TypeCompiled, ValueError>)
        ensures
            match value@.as_type() {
                Some(t) => r matches Ok(compiled) && compiled@ == t,
                None => r == Err::<TypeCompiled, ValueError>(ValueError::NotAType),
            },
    {
        match value.as_type() {
            Some(ty) => Ok(TypeCompiled { ty }),
            None => Err(ValueError::NotAType),
        }
    }

    /// The union of `xs`, in their order. The union of nothing has no value.
    pub fn type_any_of(xs: Vec<TypeCompiled>) -> (r: TypeCompiled)
        ensures
            r@ == TyView::AnyOf(compiled_view(xs@)),
    {
        TypeCompiled { ty: Ty::any_of(TypeCompiled::tys_of(&xs)) }
    }

    /// The descriptors of `xs`, in order.
    pub fn tys_of(xs: &Vec<TypeCompiled>) -> (r: Vec<Ty>)
        ensures
            tys_view(r@) == compiled_view(xs@),
    {
        let mut tys: Vec<Ty> = Vec::new();
        let mut i: usize = 0;
        while i < xs.len()
            invariant
                i <= xs@.len(),
                tys@.len() == i,
                forall|j: int| 0 <= j < i ==> (#[trigger] tys@[j])@ == xs@[j]@,
            decreases xs@.len() - i,
        {
            tys.push(xs[i].ty.clone());
            i = i + 1;
        }
        assert(tys_view(tys@) =~= compiled_view(xs@));
        tys
    }

    /// The descriptor of this type.
    pub fn as_ty(&self) -> (r: &Ty)
        ensures
            r@ == self@,
    {
        &self.ty
    }

    /// The descriptor of this type.
    pub fn into_ty(self) -> (r: Ty)
        ensures
            r@ == self@,
    {
        self.ty
    }

    /// This type as a value.
    pub fn to_inner(self) -> (r: Value)
        ensures
            r@ == ValueView::Type(self@),
    {
        Value::Type(self.ty)
    }

    /// Whether the test of this type accepts every value without looking at
    /// it.
    pub fn is_runtime_wildcard(&self) -> (r: bool)
        ensures
            r == is_wildcard(self@),
    {
        ty_is_wildcard(&self.ty)
    }

    /// Whether `value` is of this type.
    pub fn matches(&self, value: &Value) -> (r: bool)
        ensures
            r == ty_matches(self@, value@),
    {
        matches_value(&self.ty, value)
    }

    /// Moves this type into `heap` and returns where it lies there. What
    /// `heap` held before stays as it was.
    pub fn to_frozen(self, heap: &mut FrozenHeap) -> (r: FrozenTypeCompiled)
        ensures
            final(heap)@ == old(heap)@.push(self@),
            r.index == old(heap)@.len(),
    {
        heap.alloc_ty(self.ty)
    }
}

/// A compiled type that lies in a [`FrozenHeap`]: its place there.
#[derive(Clone, Copy, Debug, PartialEq, Eq, Hash, Structural)]
pub struct FrozenTypeCompiled {
    pub index: usize,
}

/// The long-lived store of a module's compiled types. It only grows: a type
/// that lies in it is never changed or removed. Its view is the sequence of
/// the types that it holds.
#[derive(Debug)]
pub struct FrozenHeap {
    types: Vec<Ty>,
}

impl View for FrozenHeap {
    type V = Seq<TyView>;

    closed spec fn view(&self) -> Seq<TyView> {
        tys_view(self.types@)
    }
}

impl FrozenHeap {
    /// An empty store.
    pub fn new() -> (r: FrozenHeap)
        ensures
            r@ == Seq::<TyView>::empty(),
    {
        let heap = FrozenHeap { types: Vec::new() };
        assert(heap@ =~= Seq::<TyView>::empty());
        heap
    }

    /// The number of types in the store.
    pub fn len(&self) -> (r: usize)
        ensures
            r == self@.len(),
    {
        self.types.len()
    }

    /// Appends `ty` and returns its place.
    pub fn alloc_ty(&mut self, ty: Ty) -> (r: FrozenTypeCompiled)
        ensures
            final(self)@ == old(self)@.push(ty@),
            r.index == old(self)@.len(),
    {
        let index = self.types.len();
        self.types.push(ty);
        assert(self@ =~= old(self)@.push(ty@));
        FrozenTypeCompiled { index }
    }

    /// The descriptor at `at`, if this store holds one there.
    pub fn get(&self, at: FrozenTypeCompiled) -> (r: Option<&Ty>)
        ensures
            at.index < self@.len() ==> r is Some && r->Some_0@ == self@[at.index as int],
            at.index >= self@.len() ==> r is None,
    {
        if at.index < self.types.len() {
            Some(&self.types[at.index])
        } else {
            None
        }
    }

    /// Whether `value` is of the type at `at`. A place that this store does
    /// not hold has no value.
    pub fn matches(&self, at: FrozenTypeCompiled, value: &Value) -> (r: bool)
        ensures
            r == (at.index < self@.len() && ty_matches(self@[at.index as int], value@)),
    {
        if at.index < self.types.len() {
            matches_value(&self.types[at.index], value)
        } else {
            false
        }
    }
}

} // verus!
