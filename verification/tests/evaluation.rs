use starlark_types::compiler::Compiler;
use starlark_types::error::{CompileError, ErrorKind, TypesError, ValueError};
use starlark_types::span::Span;
use starlark_types::syntax::{Attr, Binding, Ident, TypeExpr, TypeExprUnpack};
use starlark_types::ty::Ty;
use starlark_types::value::{Builtin, Value};

fn ev_span(begin: u32, end: u32) -> Span {
    Span { begin, end }
}

fn ev_name(name: &str) -> Ty {
    Ty::Name(name.to_string())
}

fn ev_global(name: &str, begin: u32, value: Value) -> Ident {
    Ident {
        name: name.to_string(),
        span: ev_span(begin, begin + name.len() as u32),
        binding: Binding::Global(value),
    }
}

fn ev_int(begin: u32) -> TypeExpr {
    TypeExpr {
        node: TypeExprUnpack::Path(ev_global("int", begin, Value::Type(ev_name("int"))), vec![]),
        span: ev_span(begin, begin + 3),
    }
}

fn ev_str(begin: u32) -> TypeExpr {
    TypeExpr {
        node: TypeExprUnpack::Path(ev_global("str", begin, Value::Type(ev_name("string"))), vec![]),
        span: ev_span(begin, begin + 3),
    }
}

fn ev_local(name: &str, begin: u32, slot: u32) -> TypeExpr {
    TypeExpr {
        node: TypeExprUnpack::Path(
            Ident {
                name: name.to_string(),
                span: ev_span(begin, begin + name.len() as u32),
                binding: Binding::Local(slot),
            },
            vec![],
        ),
        span: ev_span(begin, begin + name.len() as u32),
    }
}

fn ev_types_error(error: TypesError, begin: u32, end: u32) -> CompileError {
    CompileError { kind: ErrorKind::Types(error), span: ev_span(begin, end) }
}

fn ev_compiler() -> Compiler {
    Compiler::new(true, vec![])
}

fn ev_eval(expr: &TypeExpr) -> Result<Ty, CompileError> {
    ev_compiler().eval_expr_as_type(expr).map(|compiled| compiled.into_ty())
}

#[test]
fn list_of_int_is_a_list_descriptor() {
    // list[int]
    let expr = TypeExpr {
        node: TypeExprUnpack::Index(
            ev_global("list", 0, Value::Builtin(Builtin::List)),
            Box::new(ev_int(5)),
        ),
        span: ev_span(0, 9),
    };
    assert_eq!(ev_eval(&expr), Ok(Ty::List(Box::new(ev_name("int")))));
}

#[test]
fn index_on_anything_but_list_fails() {
    let callees = vec![
        Value::Builtin(Builtin::Dict),
        Value::Builtin(Builtin::Tuple),
        Value::Type(ev_name("int")),
        Value::Type(Ty::List(Box::new(Ty::Any))),
        Value::NoneValue,
        Value::Int(1),
        Value::Str("list".to_string()),
        Value::List(vec![]),
        Value::Namespace(vec![("list".to_string(), Value::Builtin(Builtin::List))]),
    ];
    for callee in callees {
        let expr = TypeExpr {
            node: TypeExprUnpack::Index(ev_global("foo", 0, callee), Box::new(ev_int(4))),
            span: ev_span(0, 8),
        };
        assert_eq!(ev_eval(&expr), Err(ev_types_error(TypesError::TypeIndexOnNonList, 0, 8)));
    }
}

#[test]
fn index_checks_the_callee_before_the_argument() {
    // foo[x] with a failing argument: the callee is judged first.
    let expr = TypeExpr {
        node: TypeExprUnpack::Index(
            ev_global("foo", 0, Value::Int(3)),
            Box::new(ev_local("x", 4, 0)),
        ),
        span: ev_span(0, 6),
    };
    assert_eq!(ev_eval(&expr), Err(ev_types_error(TypesError::TypeIndexOnNonList, 0, 6)));
    // list[x]: the callee passes and the argument's error comes out.
    let expr = TypeExpr {
        node: TypeExprUnpack::Index(
            ev_global("list", 0, Value::Builtin(Builtin::List)),
            Box::new(ev_local("x", 5, 0)),
        ),
        span: ev_span(0, 7),
    };
    assert_eq!(ev_eval(&expr), Err(ev_types_error(TypesError::LocalIdentifier, 5, 6)));
}

#[test]
fn dict_of_str_to_int_is_a_dict_descriptor() {
    // dict[str, int]
    let expr = TypeExpr {
        node: TypeExprUnpack::Index2(
            ev_global("dict", 0, Value::Builtin(Builtin::Dict)),
            Box::new(ev_str(5)),
            Box::new(ev_int(10)),
        ),
        span: ev_span(0, 14),
    };
    assert_eq!(
        ev_eval(&expr),
        Ok(Ty::Dict(Box::new(ev_name("string")), Box::new(ev_name("int"))))
    );
}

#[test]
fn index2_on_anything_but_dict_fails() {
    let callees = vec![
        Value::Builtin(Builtin::List),
        Value::Builtin(Builtin::Tuple),
        Value::Type(Ty::Dict(Box::new(Ty::Any), Box::new(Ty::Any))),
        Value::Dict(vec![]),
        Value::Str("dict".to_string()),
    ];
    for callee in callees {
        let expr = TypeExpr {
            node: TypeExprUnpack::Index2(
                ev_global("foo", 0, callee),
                Box::new(ev_str(4)),
                Box::new(ev_int(9)),
            ),
            span: ev_span(0, 13),
        };
        assert_eq!(ev_eval(&expr), Err(ev_types_error(TypesError::TypeIndexOnNonDict, 0, 13)));
    }
}

#[test]
fn index2_evaluates_the_first_argument_first() {
    let expr = TypeExpr {
        node: TypeExprUnpack::Index2(
            ev_global("dict", 0, Value::Builtin(Builtin::Dict)),
            Box::new(ev_local("k", 5, 0)),
            Box::new(ev_local("v", 8, 1)),
        ),
        span: ev_span(0, 10),
    };
    assert_eq!(ev_eval(&expr), Err(ev_types_error(TypesError::LocalIdentifier, 5, 6)));
    let expr = TypeExpr {
        node: TypeExprUnpack::Index2(
            ev_global("dict", 0, Value::Builtin(Builtin::Dict)),
            Box::new(ev_str(5)),
            Box::new(ev_local("v", 10, 1)),
        ),
        span: ev_span(0, 12),
    };
    assert_eq!(ev_eval(&expr), Err(ev_types_error(TypesError::LocalIdentifier, 10, 11)));
}

#[test]
fn tuple_of_int_ellipsis_is_a_repeated_tuple() {
    // tuple[int, ...]
    let expr = TypeExpr {
        node: TypeExprUnpack::Index2Ellipsis(
            ev_global("tuple", 0, Value::Builtin(Builtin::Tuple)),
            Box::new(ev_int(6)),
        ),
        span: ev_span(0, 15),
    };
    assert_eq!(ev_eval(&expr), Ok(Ty::TupleOf(Box::new(ev_name("int")))));
}

#[test]
fn index2_ellipsis_on_anything_but_tuple_fails() {
    let callees = vec![
        Value::Builtin(Builtin::List),
        Value::Builtin(Builtin::Dict),
        Value::Type(Ty::TupleOf(Box::new(Ty::Any))),
        Value::Tuple(vec![]),
        Value::Ellipsis,
    ];
    for callee in callees {
        let expr = TypeExpr {
            node: TypeExprUnpack::Index2Ellipsis(ev_global("foo", 0, callee), Box::new(ev_int(4))),
            span: ev_span(0, 13),
        };
        assert_eq!(
            ev_eval(&expr),
            Err(ev_types_error(TypesError::TypeIndexEllipsisOnNonTuple, 0, 13))
        );
    }
}

#[test]
fn union_of_int_and_str_accepts_both_and_no_float() {
    let expr = TypeExpr {
        node: TypeExprUnpack::Union(vec![ev_int(0), ev_str(6)]),
        span: ev_span(0, 9),
    };
    let compiled = ev_compiler().eval_expr_as_type(&expr).unwrap();
    assert_eq!(compiled.as_ty(), &Ty::AnyOf(vec![ev_name("int"), ev_name("string")]));
    assert!(compiled.matches(&Value::Int(7)));
    assert!(compiled.matches(&Value::Str("seven".to_string())));
    assert!(!compiled.matches(&Value::Float(7.5f64.to_bits())));
    assert!(!compiled.matches(&Value::NoneValue));
    assert!(!compiled.is_runtime_wildcard());
}

#[test]
fn local_variable_in_type_position_fails_whatever_its_slot() {
    for slot in [0u32, 1, 7, u32::MAX] {
        assert_eq!(
            ev_eval(&ev_local("x", 3, slot)),
            Err(ev_types_error(TypesError::LocalIdentifier, 3, 4))
        );
    }
    // Whatever the module holds at that slot number.
    let compiler = Compiler::new(true, vec![Some(Value::Type(ev_name("int")))]);
    let r = compiler.eval_expr_as_type(&ev_local("x", 3, 0));
    assert_eq!(r, Err(ev_types_error(TypesError::LocalIdentifier, 3, 4)));
}

#[test]
fn unresolved_identifier_fails() {
    let ident = Ident { name: "y".to_string(), span: ev_span(2, 3), binding: Binding::Unresolved };
    let expr = TypeExpr { node: TypeExprUnpack::Path(ident, vec![]), span: ev_span(2, 3) };
    assert_eq!(ev_eval(&expr), Err(ev_types_error(TypesError::UnresolvedIdentifier, 2, 3)));
}

#[test]
fn bare_string_value_is_no_type_but_a_literal_is() {
    // A global bound to the string "int".
    let expr = TypeExpr {
        node: TypeExprUnpack::Path(ev_global("t", 0, Value::Str("int".to_string())), vec![]),
        span: ev_span(0, 1),
    };
    assert_eq!(ev_eval(&expr), Err(ev_types_error(TypesError::StringConstantAsType, 0, 1)));
    // The literal syntax naming "int".
    let literal = TypeExpr { node: TypeExprUnpack::Literal("int".to_string()), span: ev_span(0, 5) };
    let compiled = ev_compiler().eval_expr_as_type(&literal).unwrap();
    assert_eq!(compiled.as_ty(), &ev_name("int"));
    assert!(compiled.matches(&Value::Int(1)));
    assert!(!compiled.matches(&Value::Str("int".to_string())));
}

#[test]
fn module_variable_before_assignment_fails_with_its_name() {
    let ident = |slot: u32| Ident {
        name: "MyType".to_string(),
        span: ev_span(4, 10),
        binding: Binding::Module(slot),
    };
    let expr = |slot: u32| TypeExpr {
        node: TypeExprUnpack::Path(ident(slot), vec![]),
        span: ev_span(4, 10),
    };
    let compiler = Compiler::new(true, vec![None, Some(Value::Type(ev_name("int")))]);
    let unset = ev_types_error(TypesError::ModuleVariableNotSet("MyType".to_string()), 4, 10);
    // The slot exists and is empty.
    assert_eq!(compiler.eval_expr_as_type(&expr(0)), Err(unset.clone()));
    // The module has no such slot.
    assert_eq!(compiler.eval_expr_as_type(&expr(2)), Err(unset));
    // The slot is assigned.
    let compiled = compiler.eval_expr_as_type(&expr(1)).unwrap();
    assert_eq!(compiled.as_ty(), &ev_name("int"));
}

#[test]
fn union_stops_at_the_first_failing_child() {
    // int | x | y, where x is a local and y is unresolved: x's error.
    let unresolved = TypeExpr {
        node: TypeExprUnpack::Path(
            Ident { name: "y".to_string(), span: ev_span(10, 11), binding: Binding::Unresolved },
            vec![],
        ),
        span: ev_span(10, 11),
    };
    let expr = TypeExpr {
        node: TypeExprUnpack::Union(vec![ev_int(0), ev_local("x", 6, 0), unresolved]),
        span: ev_span(0, 11),
    };
    assert_eq!(ev_eval(&expr), Err(ev_types_error(TypesError::LocalIdentifier, 6, 7)));
}

#[test]
fn tuple_stops_at_the_first_failing_child() {
    let unset = TypeExpr {
        node: TypeExprUnpack::Path(
            Ident { name: "m".to_string(), span: ev_span(1, 2), binding: Binding::Module(9) },
            vec![],
        ),
        span: ev_span(1, 2),
    };
    let expr = TypeExpr {
        node: TypeExprUnpack::Tuple(vec![unset, ev_local("x", 4, 0), ev_int(7)]),
        span: ev_span(0, 11),
    };
    assert_eq!(
        ev_eval(&expr),
        Err(ev_types_error(TypesError::ModuleVariableNotSet("m".to_string()), 1, 2))
    );
}

#[test]
fn tuple_is_built_from_the_types_of_its_children() {
    let expr = TypeExpr {
        node: TypeExprUnpack::Tuple(vec![ev_int(1), ev_str(6)]),
        span: ev_span(0, 10),
    };
    let compiled = ev_compiler().eval_expr_as_type(&expr).unwrap();
    assert_eq!(compiled.as_ty(), &Ty::Tuple(vec![ev_name("int"), ev_name("string")]));
    assert!(compiled.matches(&Value::Tuple(vec![Value::Int(1), Value::Str("a".to_string())])));
    assert!(!compiled.matches(&Value::Tuple(vec![Value::Str("a".to_string()), Value::Int(1)])));
    assert!(!compiled.matches(&Value::Tuple(vec![Value::Int(1)])));
    assert!(!compiled.matches(&Value::List(vec![Value::Int(1), Value::Str("a".to_string())])));
}

#[test]
fn empty_union_is_legal_and_has_no_value() {
    let expr = TypeExpr { node: TypeExprUnpack::Union(vec![]), span: ev_span(0, 2) };
    let compiled = ev_compiler().eval_expr_as_type(&expr).unwrap();
    assert_eq!(compiled.as_ty(), &Ty::AnyOf(vec![]));
    assert!(!compiled.matches(&Value::NoneValue));
    assert!(!compiled.matches(&Value::Int(0)));
    assert!(!compiled.is_runtime_wildcard());
}

#[test]
fn empty_tuple_is_the_type_of_the_empty_tuple() {
    let expr = TypeExpr { node: TypeExprUnpack::Tuple(vec![]), span: ev_span(0, 2) };
    let compiled = ev_compiler().eval_expr_as_type(&expr).unwrap();
    assert_eq!(compiled.as_ty(), &Ty::Tuple(vec![]));
    assert!(compiled.matches(&Value::Tuple(vec![])));
    assert!(!compiled.matches(&Value::Tuple(vec![Value::Int(0)])));
}

#[test]
fn path_follows_attributes_in_order() {
    // typing.Any and pkg.sub.T
    let typing = Value::Namespace(vec![
        ("Any".to_string(), Value::Type(Ty::Any)),
        ("Callable".to_string(), Value::Int(0)),
    ]);
    let expr = TypeExpr {
        node: TypeExprUnpack::Path(
            ev_global("typing", 0, typing),
            vec![Attr { name: "Any".to_string(), span: ev_span(7, 10) }],
        ),
        span: ev_span(0, 10),
    };
    assert_eq!(ev_eval(&expr), Ok(Ty::Any));

    let pkg = Value::Namespace(vec![(
        "sub".to_string(),
        Value::Namespace(vec![("T".to_string(), Value::Type(ev_name("record")))]),
    )]);
    let expr = TypeExpr {
        node: TypeExprUnpack::Path(
            ev_global("pkg", 0, pkg),
            vec![
                Attr { name: "sub".to_string(), span: ev_span(4, 7) },
                Attr { name: "T".to_string(), span: ev_span(8, 9) },
            ],
        ),
        span: ev_span(0, 9),
    };
    assert_eq!(ev_eval(&expr), Ok(ev_name("record")));
}

#[test]
fn missing_attribute_fails_at_the_attribute() {
    let pkg = Value::Namespace(vec![("a".to_string(), Value::Namespace(vec![]))]);
    let expr = TypeExpr {
        node: TypeExprUnpack::Path(
            ev_global("pkg", 0, pkg),
            vec![
                Attr { name: "a".to_string(), span: ev_span(4, 5) },
                Attr { name: "b".to_string(), span: ev_span(6, 7) },
                Attr { name: "c".to_string(), span: ev_span(8, 9) },
            ],
        ),
        span: ev_span(0, 9),
    };
    assert_eq!(
        ev_eval(&expr),
        Err(CompileError {
            kind: ErrorKind::Value(ValueError::NoAttribute("b".to_string())),
            span: ev_span(6, 7),
        })
    );
}

#[test]
fn path_errors_carry_the_span_from_identifier_to_last_attribute() {
    // ns.name where name is a string: the span runs from `ns` to `name`.
    let ns = Value::Namespace(vec![("name".to_string(), Value::Str("int".to_string()))]);
    let first = Ident {
        name: "ns".to_string(),
        span: ev_span(10, 12),
        binding: Binding::Global(ns),
    };
    let compiler = ev_compiler();
    let r = compiler
        .eval_path_as_type(&first, &vec![Attr { name: "name".to_string(), span: ev_span(13, 17) }]);
    assert_eq!(r, Err(ev_types_error(TypesError::StringConstantAsType, 10, 17)));
    // Without attributes it is the span of the identifier alone.
    let first = Ident {
        name: "n".to_string(),
        span: ev_span(3, 4),
        binding: Binding::Global(Value::Int(5)),
    };
    let r = compiler.eval_path_as_type(&first, &vec![]);
    assert_eq!(
        r,
        Err(CompileError { kind: ErrorKind::Value(ValueError::NotAType), span: ev_span(3, 4) })
    );
}

#[test]
fn values_that_denote_types() {
    let compiler = ev_compiler();
    let span = ev_span(0, 1);
    let as_ty = |value: Value| {
        compiler.alloc_value_for_type(&value, span).map(|compiled| compiled.into_ty())
    };
    assert_eq!(as_ty(Value::Type(ev_name("int"))), Ok(ev_name("int")));
    assert_eq!(as_ty(Value::NoneValue), Ok(ev_name("NoneType")));
    assert_eq!(as_ty(Value::Builtin(Builtin::List)), Ok(Ty::List(Box::new(Ty::Any))));
    assert_eq!(
        as_ty(Value::Builtin(Builtin::Dict)),
        Ok(Ty::Dict(Box::new(Ty::Any), Box::new(Ty::Any)))
    );
    assert_eq!(as_ty(Value::Builtin(Builtin::Tuple)), Ok(Ty::TupleOf(Box::new(Ty::Any))));
    let not_a_type = CompileError { kind: ErrorKind::Value(ValueError::NotAType), span };
    assert_eq!(as_ty(Value::Int(1)), Err(not_a_type.clone()));
    assert_eq!(as_ty(Value::Bool(true)), Err(not_a_type.clone()));
    assert_eq!(as_ty(Value::Ellipsis), Err(not_a_type.clone()));
    assert_eq!(as_ty(Value::List(vec![])), Err(not_a_type.clone()));
    assert_eq!(as_ty(Value::Namespace(vec![])), Err(not_a_type));
    assert_eq!(
        as_ty(Value::Str(String::new())),
        Err(ev_types_error(TypesError::StringConstantAsType, 0, 1))
    );
}

#[test]
fn nested_annotation_evaluates_inside_out() {
    // dict[str, list[tuple[int, ...]]]
    let inner = TypeExpr {
        node: TypeExprUnpack::Index2Ellipsis(
            ev_global("tuple", 15, Value::Builtin(Builtin::Tuple)),
            Box::new(ev_int(21)),
        ),
        span: ev_span(15, 30),
    };
    let list = TypeExpr {
        node: TypeExprUnpack::Index(
            ev_global("list", 10, Value::Builtin(Builtin::List)),
            Box::new(inner),
        ),
        span: ev_span(10, 31),
    };
    let expr = TypeExpr {
        node: TypeExprUnpack::Index2(
            ev_global("dict", 0, Value::Builtin(Builtin::Dict)),
            Box::new(ev_str(5)),
            Box::new(list),
        ),
        span: ev_span(0, 32),
    };
    assert_eq!(
        ev_eval(&expr),
        Ok(Ty::Dict(
            Box::new(ev_name("string")),
            Box::new(Ty::List(Box::new(Ty::TupleOf(Box::new(ev_name("int")))))),
        ))
    );
}

#[test]
fn resolver_returns_the_bound_value() {
    let compiler = Compiler::new(true, vec![Some(Value::Int(42)), None]);
    let global = ev_global("g", 0, Value::Str("v".to_string()));
    assert_eq!(compiler.eval_ident_in_type_expr(&global), Ok(&Value::Str("v".to_string())));
    let module = Ident { name: "m".to_string(), span: ev_span(0, 1), binding: Binding::Module(0) };
    assert_eq!(compiler.eval_ident_in_type_expr(&module), Ok(&Value::Int(42)));
    assert_eq!(compiler.get_slot(0), Some(&Value::Int(42)));
    assert_eq!(compiler.get_slot(1), None);
    assert_eq!(compiler.get_slot(2), None);
}
