//! The canonical type descriptor and its mathematical model.

use vstd::prelude::*;

verus! {

/// Mathematical model of a type descriptor.
pub enum TyView {
    /// Every value.
    Any,
    /// The values whose type has this name.
    Name(Seq<char>),
    /// Lists whose elements are all of one type.
    List(Box<TyView>),
    /// Dictionaries whose keys are of the first type and whose values are of
    /// the second.
    Dict(Box<TyView>, Box<TyView>),
    /// Tuples of this length whose elements have these types, in order.
    Tuple(Seq<TyView>),
    /// Tuples of any length whose elements are all of one type.
    TupleOf(Box<TyView>),
    /// The values of any of these types.
    AnyOf(Seq<TyView>),
}

/// Canonical type descriptor. Its view is a [`TyView`].
#[derive(Debug, PartialEq, Eq)]
pub enum Ty {
    /// Every value.
    Any,
    /// The values whose type has this name.
    Name(String),
    /// Lists whose elements are all of one type.
    List(Box<Ty>),
    /// Dictionaries whose keys are of the first type and whose values are of
    /// the second.
    Dict(Box<Ty>, Box<Ty>),
    /// Tuples of this length whose elements have these types, in order.
    Tuple(Vec<Ty>),
    /// Tuples of any length whose elements are all of one type.
    TupleOf(Box<Ty>),
    /// The values of any of these types.
    AnyOf(Vec<Ty>),
}

/// The models of a sequence of descriptors, in order.
pub open spec fn tys_view(ts: Seq<Ty>) -> Seq<TyView> {
    Seq::new(ts.len(), |i: int| ts[i]@)
}

impl Ty {
    /// The model of this descriptor.
    pub open spec fn model(self) -> TyView
        decreases self,
    {
        match self {
            Ty::Any => TyView::Any,
            Ty::Name(n) => TyView::Name(n@),
            Ty::List(t) => TyView::List(Box::new((*t).model())),
            Ty::Dict(k, v) => TyView::Dict(Box::new((*k).model()), Box::new((*v).model())),
            Ty::Tuple(ts) => TyView::Tuple(
                Seq::new(
                    ts@.len(),
                    |i: int| if 0 <= i < ts@.len() { ts@[i].model() } else { TyView::Any },
                ),
            ),
            Ty::TupleOf(t) => TyView::TupleOf(Box::new((*t).model())),
            Ty::AnyOf(ts) => TyView::AnyOf(
                Seq::new(
                    ts@.len(),
                    |i: int| if 0 <= i < ts@.len() { ts@[i].model() } else { TyView::Any },
                ),
            ),
        }
    }

    /// A tuple descriptor lists the models of its elements, and so does a
    /// union descriptor.
    pub proof fn lemma_view_of_children(ts: Vec<Ty>)
        ensures
            Ty::Tuple(ts)@ == TyView::Tuple(tys_view(ts@)),
            Ty::AnyOf(ts)@ == TyView::AnyOf(tys_view(ts@)),
    {
        assert(Ty::Tuple(ts)@->Tuple_0 =~= tys_view(ts@));
        assert(Ty::AnyOf(ts)@->AnyOf_0 =~= tys_view(ts@));
    }

    /// The fixed-arity tuple of `xs`.
    pub fn tuple(xs: Vec<Ty>) -> (r: Ty)
        ensures
            r@ == TyView::Tuple(tys_view(xs@)),
    {
        proof {
            Ty::lemma_view_of_children(xs);
        }
        Ty::Tuple(xs)
    }

    /// The union of `xs`.
    pub fn any_of(xs: Vec<Ty>) -> (r: Ty)
        ensures
            r@ == TyView::AnyOf(tys_view(xs@)),
    {
        proof {
            Ty::lemma_view_of_children(xs);
        }
        Ty::AnyOf(xs)
    }

    /// A copy of this descriptor.
    pub fn duplicate(&self) -> (r: Ty)
        ensures
            r@ == self@,
        decreases *self, 0nat,
    {
        match self {
            Ty::Any => Ty::Any,
            Ty::Name(n) => Ty::Name(n.clone()),
            Ty::List(t) => Ty::List(Box::new((**t).duplicate())),
            Ty::Dict(k, v) => Ty::Dict(Box::new((**k).duplicate()), Box::new((**v).duplicate())),
            Ty::Tuple(ts) => {
                let copies = duplicate_all(ts);
                proof {
                    Ty::lemma_view_of_children(*ts);
                }
                Ty::tuple(copies)
            },
            Ty::TupleOf(t) => Ty::TupleOf(Box::new((**t).duplicate())),
            Ty::AnyOf(ts) => {
                let copies = duplicate_all(ts);
                proof {
                    Ty::lemma_view_of_children(*ts);
                }
                Ty::any_of(copies)
            },
        }
    }
}

/// Copies of the descriptors in `ts`, in order.
pub fn duplicate_all(ts: &Vec<Ty>) -> (r: Vec<Ty>)
    ensures
        tys_view(r@) == tys_view(ts@),
    decreases *ts, 1nat,
{
    let mut copies: Vec<Ty> = Vec::new();
    let mut i: usize = 0;
    while i < ts.len()
        invariant
            i <= ts@.len(),
            copies@.len() == i,
            forall|j: int| 0 <= j < i ==> (#[trigger] copies@[j])@ == ts@[j]@,
        decreases ts@.len() - i,
    {
        let copy = ts[i].duplicate();
        copies.push(copy);
        i = i + 1;
    }
    copies
}

impl View for Ty {
    type V = TyView;

    open spec fn view(&self) -> TyView {
        self.model()
    }
}

impl Clone for Ty {
    fn clone(&self) -> (r: Ty)
        ensures
            r@ == self@,
    {
        self.duplicate()
    }
}

} // verus!
