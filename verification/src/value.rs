//! Runtime values, as far as type annotations read them.

use vstd::prelude::*;
use vstd::string::StringExecFns;
use crate::error::ValueError;
use crate::ty::{Ty, TyView};

verus! {

/// The constructors that may be indexed in a type annotation. Each stands
/// for the one value that the global of that name is bound to.
#[derive(Clone, Copy, Debug, PartialEq, Eq, Hash, Structural)]
pub enum Builtin {
    /// The `list` constructor.
    List,
    /// The `dict` constructor.
    Dict,
    /// The `tuple` constructor.
    Tuple,
}

/// Mathematical model of a runtime value.
pub enum ValueView {
    NoneValue,
    Bool(bool),
    Int(i64),
    Float(u64),
    Str(Seq<char>),
    List(Seq<ValueView>),
    Tuple(Seq<ValueView>),
    Dict(Seq<(ValueView, ValueView)>),
    Ellipsis,
    Builtin(Builtin),
    Type(TyView),
    Namespace(Seq<(Seq<char>, ValueView)>),
}

/// A runtime value. Its view is a [`ValueView`].
#[derive(Debug, PartialEq, Eq)]
pub enum Value {
    /// The value `None`.
    NoneValue,
    Bool(bool),
    Int(i64),
    /// A floating-point number, held as its bit pattern.
    Float(u64),
    Str(String),
    List(Vec<Value>),
    Tuple(Vec<Value>),
    /// A dictionary, held as its entries in insertion order.
    Dict(Vec<(Value, Value)>),
    /// The `...` marker.
    Ellipsis,
    /// One of the recognised constructors.
    Builtin(Builtin),
    /// A value that denotes a type, such as `int` or `list[int]`.
    Type(Ty),
    /// A record of named values, such as a loaded module.
    Namespace(Vec<(String, Value)>),
}

/// The models of a sequence of values, in order.
pub open spec fn values_view(xs: Seq<Value>) -> Seq<ValueView> {
    Seq::new(xs.len(), |i: int| xs[i]@)
}

/// The models of the entries of a dictionary, in order.
pub open spec fn entries_view(es: Seq<(Value, Value)>) -> Seq<(ValueView, ValueView)> {
    Seq::new(es.len(), |i: int| (es[i].0@, es[i].1@))
}

/// The models of the fields of a namespace, in order.
pub open spec fn fields_view(fs: Seq<(String, Value)>) -> Seq<(Seq<char>, ValueView)> {
    Seq::new(fs.len(), |i: int| (fs[i].0@, fs[i].1@))
}

/// The index of the first field called `name` at or after `from`, or the
/// number of fields where there is none.
pub open spec fn first_field_from(
    fields: Seq<(Seq<char>, ValueView)>,
    name: Seq<char>,
    from: int,
) -> int
    decreases fields.len() - from,
{
    if from < 0 || from >= fields.len() {
        fields.len() as int
    } else if fields[from].0 == name {
        from
    } else {
        first_field_from(fields, name, from + 1)
    }
}

impl ValueView {
    /// The name of the type of this value.
    pub open spec fn get_type(self) -> Seq<char> {
        match self {
            ValueView::NoneValue => "NoneType"@,
            ValueView::Bool(_) => "bool"@,
            ValueView::Int(_) => "int"@,
            ValueView::Float(_) => "float"@,
            ValueView::Str(_) => "string"@,
            ValueView::List(_) => "list"@,
            ValueView::Tuple(_) => "tuple"@,
            ValueView::Dict(_) => "dict"@,
            ValueView::Ellipsis => "ellipsis"@,
            ValueView::Builtin(_) => "function"@,
            ValueView::Type(_) => "type"@,
            ValueView::Namespace(_) => "struct"@,
        }
    }

    /// The attribute `name` of this value: the first field of that name of a
    /// namespace. No other value has attributes.
    pub open spec fn get_attr(self, name: Seq<char>) -> Option<ValueView> {
        match self {
            ValueView::Namespace(fields) => {
                let at = first_field_from(fields, name, 0);
                if at < fields.len() {
                    Some(fields[at].1)
                } else {
                    None
                }
            },
            _ => None,
        }
    }

    /// The type that `self[index]` denotes: `list[T]` for a type `T`.
    /// Nothing else can be indexed by one value.
    pub open spec fn at(self, index: ValueView) -> Option<TyView> {
        match (self, index) {
            (ValueView::Builtin(Builtin::List), ValueView::Type(t)) => Some(
                TyView::List(Box::new(t)),
            ),
            _ => None,
        }
    }

    /// The type that `self[index0, index1]` denotes: `dict[K, V]` for types
    /// `K` and `V`, and `tuple[T, ...]` for a type `T`. Nothing else can be
    /// indexed by two values.
    pub open spec fn at2(self, index0: ValueView, index1: ValueView) -> Option<TyView> {
        match (self, index0, index1) {
            (ValueView::Builtin(Builtin::Dict), ValueView::Type(k), ValueView::Type(v)) => Some(
                TyView::Dict(Box::new(k), Box::new(v)),
            ),
            (ValueView::Builtin(Builtin::Tuple), ValueView::Type(t), ValueView::Ellipsis) => Some(
                TyView::TupleOf(Box::new(t)),
            ),
            _ => None,
        }
    }

    /// The type that this value denotes when it stands as an annotation:
    /// a type value denotes itself, `None` the type of `None`, and a bare
    /// constructor its unconstrained collection. No other value is a type.
    pub open spec fn as_type(self) -> Option<TyView> {
        match self {
            ValueView::Type(t) => Some(t),
            ValueView::NoneValue => Some(TyView::Name("NoneType"@)),
            ValueView::Builtin(Builtin::List) => Some(TyView::List(Box::new(TyView::Any))),
            ValueView::Builtin(Builtin::Dict) => Some(
                TyView::Dict(Box::new(TyView::Any), Box::new(TyView::Any)),
            ),
            ValueView::Builtin(Builtin::Tuple) => Some(TyView::TupleOf(Box::new(TyView::Any))),
            _ => None,
        }
    }
}

impl Value {
    /// The model of this value.
    pub open spec fn model(self) -> ValueView
        decreases self,
    {
        match self {
            Value::NoneValue => ValueView::NoneValue,
            Value::Bool(b) => ValueView::Bool(b),
            Value::Int(i) => ValueView::Int(i),
            Value::Float(bits) => ValueView::Float(bits),
            Value::Str(s) => ValueView::Str(s@),
            Value::List(xs) => ValueView::List(
                Seq::new(
                    xs@.len(),
                    |i: int| if 0 <= i < xs@.len() { xs@[i].model() } else { ValueView::NoneValue },
                ),
            ),
            Value::Tuple(xs) => ValueView::Tuple(
                Seq::new(
                    xs@.len(),
                    |i: int| if 0 <= i < xs@.len() { xs@[i].model() } else { ValueView::NoneValue },
                ),
            ),
            Value::Dict(es) => ValueView::Dict(
                Seq::new(
                    es@.len(),
                    |i: int|
                        if 0 <= i < es@.len() {
                            (es@[i].0.model(), es@[i].1.model())
                        } else {
                            (ValueView::NoneValue, ValueView::NoneValue)
                        },
                ),
            ),
            Value::Ellipsis => ValueView::Ellipsis,
            Value::Builtin(b) => ValueView::Builtin(b),
            Value::Type(t) => ValueView::Type(t@),
            Value::Namespace(fs) => ValueView::Namespace(
                Seq::new(
                    fs@.len(),
                    |i: int|
                        if 0 <= i < fs@.len() {
                            (fs@[i].0@, fs@[i].1.model())
                        } else {
                            (Seq::empty(), ValueView::NoneValue)
                        },
                ),
            ),
        }
    }

    /// A list and a tuple hold the models of their elements.
    pub proof fn lemma_view_of_elements(xs: Vec<Value>)
        ensures
            Value::List(xs)@ == ValueView::List(values_view(xs@)),
            Value::Tuple(xs)@ == ValueView::Tuple(values_view(xs@)),
    {
        assert(Value::List(xs)@->List_0 =~= values_view(xs@));
        assert(Value::Tuple(xs)@->Tuple_0 =~= values_view(xs@));
    }

    /// A dictionary holds the models of its entries.
    pub proof fn lemma_view_of_entries(es: Vec<(Value, Value)>)
        ensures
            Value::Dict(es)@ == ValueView::Dict(entries_view(es@)),
    {
        assert(Value::Dict(es)@->Dict_0 =~= entries_view(es@));
    }

    /// A namespace holds the names of its fields and the models of their
    /// values.
    pub proof fn lemma_view_of_fields(fs: Vec<(String, Value)>)
        ensures
            Value::Namespace(fs)@ == ValueView::Namespace(fields_view(fs@)),
    {
        assert(Value::Namespace(fs)@->Namespace_0 =~= fields_view(fs@));
    }
}

impl Value {
    /// The name of the type of this value.
    pub fn get_type(&self) -> (r: String)
        ensures
            r@ == self@.get_type(),
    {
        match self {
            Value::NoneValue => String::from_str("NoneType"),
            Value::Bool(_) => String::from_str("bool"),
            Value::Int(_) => String::from_str("int"),
            Value::Float(_) => String::from_str("float"),
            Value::Str(_) => String::from_str("string"),
            Value::List(_) => String::from_str("list"),
            Value::Tuple(_) => String::from_str("tuple"),
            Value::Dict(_) => String::from_str("dict"),
            Value::Ellipsis => String::from_str("ellipsis"),
            Value::Builtin(_) => String::from_str("function"),
            Value::Type(_) => String::from_str("type"),
            Value::Namespace(_) => String::from_str("struct"),
        }
    }

    /// Whether this value is a string.
    pub fn is_str(&self) -> (r: bool)
        ensures
            r == (self@ is Str),
    {
        match self {
            Value::Str(_) => true,
            _ => false,
        }
    }

    /// Whether this value is the constructor `builtin`.
    pub fn is_builtin(&self, builtin: Builtin) -> (r: bool)
        ensures
            r == (self@ == ValueView::Builtin(builtin)),
    {
        match self {
            Value::Builtin(b) => *b == builtin,
            _ => false,
        }
    }

    /// The attribute `name` of this value, or the error that it has none.
    pub fn get_attr_error(&self, name: &String) -> (r: Result<&Value, ValueError>)
        ensures
            match self@.get_attr(name@) {
                Some(v) => r is Ok && r->Ok_0@ == v,
                None => r == Err::<&Value, ValueError>(ValueError::NoAttribute(*name)),
            },
    {
        match self {
            Value::Namespace(fields) => {
                proof {
                    Value::lemma_view_of_fields(*fields);
                }
                let mut i: usize = 0;
                while i < fields.len()
                    invariant
                        i <= fields@.len(),
                        self@ == ValueView::Namespace(fields_view(fields@)),
                        first_field_from(fields_view(fields@), name@, 0) == first_field_from(
                            fields_view(fields@),
                            name@,
                            i as int,
                        ),
                    decreases fields@.len() - i,
                {
                    if fields[i].0 == *name {
                        return Ok(&fields[i].1);
                    }
                    i = i + 1;
                }
                Err(ValueError::NoAttribute(name.clone()))
            },
            _ => Err(ValueError::NoAttribute(name.clone())),
        }
    }

    /// `self[index]`.
    pub fn at(&self, index: Value) -> (r: Result<Value, ValueError>)
        ensures
            match self@.at(index@) {
                Some(t) => r matches Ok(Value::Type(rt)) && rt@ == t,
                None => r == Err::<Value, ValueError>(ValueError::IndexNotSupported),
            },
    {
        match (self, index) {
            (Value::Builtin(Builtin::List), Value::Type(t)) => Ok(
                Value::Type(Ty::List(Box::new(t))),
            ),
            _ => Err(ValueError::IndexNotSupported),
        }
    }

    /// `self[index0, index1]`.
    pub fn at2(&self, index0: Value, index1: Value) -> (r: Result<Value, ValueError>)
        ensures
            match self@.at2(index0@, index1@) {
                Some(t) => r matches Ok(Value::Type(rt)) && rt@ == t,
                None => r == Err::<Value, ValueError>(ValueError::IndexNotSupported),
            },
    {
        match (self, index0, index1) {
            (Value::Builtin(Builtin::Dict), Value::Type(k), Value::Type(v)) => Ok(
                Value::Type(Ty::Dict(Box::new(k), Box::new(v))),
            ),
            (Value::Builtin(Builtin::Tuple), Value::Type(t), Value::Ellipsis) => Ok(
                Value::Type(Ty::TupleOf(Box::new(t))),
            ),
            _ => Err(ValueError::IndexNotSupported),
        }
    }

    /// The type that this value denotes when it stands as an annotation.
    pub fn as_type(&self) -> (r: Option<Ty>)
        ensures
            match self@.as_type() {
                Some(t) => r matches Some(rt) && rt@ == t,
                None => r is None,
            },
    {
        match self {
            Value::Type(t) => Some(t.clone()),
            Value::NoneValue => Some(Ty::Name(String::from_str("NoneType"))),
            Value::Builtin(Builtin::List) => Some(Ty::List(Box::new(Ty::Any))),
            Value::Builtin(Builtin::Dict) => Some(Ty::Dict(Box::new(Ty::Any), Box::new(Ty::Any))),
            Value::Builtin(Builtin::Tuple) => Some(Ty::TupleOf(Box::new(Ty::Any))),
            _ => None,
        }
    }

    /// A copy of this value.
    pub fn duplicate(&self) -> (r: Value)
        ensures
            r@ == self@,
        decreases *self, 0nat,
    {
        match self {
            Value::NoneValue => Value::NoneValue,
            Value::Bool(b) => Value::Bool(*b),
            Value::Int(i) => Value::Int(*i),
            Value::Float(bits) => Value::Float(*bits),
            Value::Str(s) => Value::Str(s.clone()),
            Value::List(xs) => {
                let copies = duplicate_values(xs);
                proof {
                    Value::lemma_view_of_elements(*xs);
                    Value::lemma_view_of_elements(copies);
                }
                Value::List(copies)
            },
            Value::Tuple(xs) => {
                let copies = duplicate_values(xs);
                proof {
                    Value::lemma_view_of_elements(*xs);
                    Value::lemma_view_of_elements(copies);
                }
                Value::Tuple(copies)
            },
            Value::Dict(es) => {
                let copies = duplicate_entries(es);
                proof {
                    Value::lemma_view_of_entries(*es);
                    Value::lemma_view_of_entries(copies);
                }
                Value::Dict(copies)
            },
            Value::Ellipsis => Value::Ellipsis,
            Value::Builtin(b) => Value::Builtin(*b),
            Value::Type(t) => Value::Type(t.clone()),
            Value::Namespace(fs) => {
                let copies = duplicate_fields(fs);
                proof {
                    Value::lemma_view_of_fields(*fs);
                    Value::lemma_view_of_fields(copies);
                }
                Value::Namespace(copies)
            },
        }
    }
}

/// Copies of the entries in `es`, in order.
pub fn duplicate_entries(es: &Vec<(Value, Value)>) -> (r: Vec<(Value, Value)>)
    ensures
        entries_view(r@) == entries_view(es@),
    decreases *es, 1nat,
{
    let mut copies: Vec<(Value, Value)> = Vec::new();
    let mut i: usize = 0;
    while i < es.len()
        invariant
            i <= es@.len(),
            copies@.len() == i,
            forall|j: int|
                0 <= j < i ==> (#[trigger] copies@[j]).0@ == es@[j].0@ && copies@[j].1@
                    == es@[j].1@,
        decreases es@.len() - i,
    {
        let key = es[i].0.duplicate();
        let value = es[i].1.duplicate();
        copies.push((key, value));
        i = i + 1;
    }
    copies
}

/// Copies of the fields in `fs`, in order.
pub fn duplicate_fields(fs: &Vec<(String, Value)>) -> (r: Vec<(String, Value)>)
    ensures
        fields_view(r@) == fields_view(fs@),
    decreases *fs, 1nat,
{
    let mut copies: Vec<(String, Value)> = Vec::new();
    let mut i: usize = 0;
    while i < fs.len()
        invariant
            i <= fs@.len(),
            copies@.len() == i,
            forall|j: int|
                0 <= j < i ==> (#[trigger] copies@[j]).0@ == fs@[j].0@ && copies@[j].1@
                    == fs@[j].1@,
        decreases fs@.len() - i,
    {
        let name = fs[i].0.clone();
        let value = fs[i].1.duplicate();
        copies.push((name, value));
        i = i + 1;
    }
    copies
}

/// Copies of the values in `xs`, in order.
pub fn duplicate_values(xs: &Vec<Value>) -> (r: Vec<Value>)
    ensures
        values_view(r@) == values_view(xs@),
    decreases *xs, 1nat,
{
    let mut copies: Vec<Value> = Vec::new();
    let mut i: usize = 0;
    while i < xs.len()
        invariant
            i <= xs@.len(),
            copies@.len() == i,
            forall|j: int| 0 <= j < i ==> (#[trigger] copies@[j])@ == xs@[j]@,
        decreases xs@.len() - i,
    {
        let copy = xs[i].duplicate();
        copies.push(copy);
        i = i + 1;
    }
    copies
}

impl Clone for Value {
    fn clone(&self) -> (r: Value)
        ensures
            r@ == self@,
    {
        self.duplicate()
    }
}

impl View for Value {
    type V = ValueView;

    open spec fn view(&self) -> ValueView {
        self.model()
    }
}

} // verus!
