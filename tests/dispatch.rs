use surreal_function::dispatch::{
    arity_text, bind_args, bound_or_absent, callable, catch_return, check_arity, check_custom, check_permission,
    closure_target, coerce_return, finish_custom, literal_verdict, min_args, permission_predicate, qualified_name,
    script_disabled, ControlFlow, Definition, Permission, Plan, Target,
};
use surreal_function::env::{init, release};
use surreal_function::error::CallError;
use surreal_function::function::Function;
use surreal_function::value::{Expr, Kind, Scalar, Value};

fn def(args: Vec<(&str, Kind)>, permissions: Permission, returns: Option<Kind>) -> Definition {
    Definition {
        name: "double".to_string(),
        args: args.into_iter().map(|(n, k)| (n.to_string(), k)).collect(),
        permissions,
        returns,
    }
}

const NUM: Kind = Kind::Exactly(Scalar::Number);
const OPT: Kind = Kind::Optional(Scalar::Number);

fn arity_error(d: &Definition, given: usize) -> (String, String) {
    match check_arity(d, given) {
        Err(CallError::InvalidArguments { name, message }) => (name, message),
        other => panic!("unexpected {other:?}"),
    }
}

#[test]
fn arity_required_and_optional() {
    let d = def(vec![("a", NUM), ("b", OPT)], Permission::Full, None);
    assert_eq!(min_args(&d), 1);
    assert_eq!(d.args.len(), 2);
    assert_eq!(arity_error(&d, 0), ("fn::double".to_string(), "The function expects 1 to 2 arguments.".to_string()));
    assert_eq!(check_arity(&d, 1), Ok(()));
    assert_eq!(check_arity(&d, 2), Ok(()));
    assert_eq!(arity_error(&d, 3).1, "The function expects 1 to 2 arguments.");
}

#[test]
fn arity_single_required() {
    let d = def(vec![("a", NUM)], Permission::Full, None);
    assert_eq!(arity_error(&d, 0).1, "The function expects 1 argument.");
}

#[test]
fn arity_exact_many() {
    let d = def(vec![("a", NUM), ("b", NUM), ("c", NUM)], Permission::Full, None);
    assert_eq!(arity_error(&d, 2).1, "The function expects 3 arguments.");
    assert_eq!(arity_text(12, 12), "The function expects 12 arguments.");
    assert_eq!(arity_text(0, 10), "The function expects 0 to 10 arguments.");
}

#[test]
fn arity_any_relaxes_only_at_the_tail() {
    let d = def(vec![("a", Kind::Any), ("b", NUM), ("c", Kind::Any), ("d", OPT)], Permission::Full, None);
    assert_eq!(min_args(&d), 2);
    let none = def(vec![], Permission::Full, None);
    assert_eq!(min_args(&none), 0);
    assert_eq!(check_arity(&none, 0), Ok(()));
    assert_eq!(arity_error(&none, 1).1, "The function expects 0 arguments.");
    let all = def(vec![("a", Kind::Any), ("b", OPT)], Permission::Full, None);
    assert_eq!(min_args(&all), 0);
}

#[test]
fn permission_false_literal_always_denied() {
    let d = def(vec![("a", NUM)], Permission::Specific(Value::Bool(false)), None);
    let e = permission_predicate(&d.permissions, true).expect("predicate");
    let verdict = literal_verdict(e).expect("constant");
    assert_eq!(verdict, Value::Bool(false));
    for given in 0..4 {
        assert_eq!(
            check_custom(&d, true, given, &verdict),
            Err(CallError::FunctionPermissions { name: "double".to_string() })
        );
    }
}

#[test]
fn permission_full_never_denied() {
    let d = def(vec![("a", NUM)], Permission::Full, None);
    for verdict in [Value::Bool(false), Value::Null, Value::Absent] {
        assert_eq!(check_custom(&d, true, 1, &verdict), Ok(()));
        assert!(!matches!(check_custom(&d, true, 5, &verdict), Err(CallError::FunctionPermissions { .. })));
    }
}

#[test]
fn permission_deny_and_unchecked() {
    let denied = Err(CallError::FunctionPermissions { name: "double".to_string() });
    assert_eq!(check_permission("double", &Permission::Deny, true, &Value::Bool(true)), denied);
    assert_eq!(check_permission("double", &Permission::Deny, false, &Value::Absent), Ok(()));
    let p = Permission::Specific(Value::Param("auth".to_string()));
    assert_eq!(permission_predicate(&p, false), None);
    assert_eq!(permission_predicate(&p, true), Some(&Value::Param("auth".to_string())));
    assert_eq!(literal_verdict(&Value::Param("auth".to_string())), None);
    assert_eq!(check_permission("double", &p, true, &Value::Number(1)), Ok(()));
    assert_eq!(check_permission("double", &p, true, &Value::Strand(String::new())), denied);
}

#[test]
fn closure_targets() {
    let c = Value::Closure("|$x| $x".to_string());
    assert_eq!(closure_target(&c), Target::Ready(c.clone()));
    assert_eq!(closure_target(&Value::Param("f".to_string())), Target::Lookup("f".to_string()));
    let e = Expr { text: "{ 1 }".to_string(), writes: false, fixed: false };
    assert_eq!(closure_target(&Value::Block(e.clone())), Target::Evaluate);
    assert_eq!(closure_target(&Value::Subquery(e.clone())), Target::Evaluate);
    assert_eq!(closure_target(&Value::Function(e)), Target::Evaluate);
    assert_eq!(closure_target(&Value::Idiom("a.b".to_string())), Target::Evaluate);
    assert_eq!(closure_target(&Value::Number(3)), Target::Missing);
    assert_eq!(bound_or_absent(None), Value::Absent);
    assert_eq!(bound_or_absent(Some(&c)), c);
}

#[test]
fn non_closure_is_not_callable() {
    match callable(&Value::Number(3)) {
        Err(CallError::InvalidFunction { name, message }) => {
            assert_eq!(name, "ANONYMOUS");
            assert_eq!(message, "'number' is not a function");
        }
        other => panic!("unexpected {other:?}"),
    }
    match callable(&Value::Absent) {
        Err(CallError::InvalidFunction { message, .. }) => assert_eq!(message, "'none' is not a function"),
        other => panic!("unexpected {other:?}"),
    }
    let c = Value::Closure("|| 1".to_string());
    assert_eq!(callable(&c), Ok(&"|| 1".to_string()));
}

#[test]
fn return_is_absorbed() {
    assert_eq!(catch_return(Err(ControlFlow::Return(Value::Number(4)))), Ok(Value::Number(4)));
    assert_eq!(catch_return(Err(ControlFlow::Break)), Err(ControlFlow::Break));
    assert_eq!(catch_return(Ok(Value::Null)), Ok(Value::Null));
}

#[test]
fn scripting_disabled_error() {
    assert_eq!(script_disabled(), CallError::InvalidScript { message: "Embedded functions are not enabled.".to_string() });
    let s = Function::Script("return 1;".to_string(), vec![]);
    assert_eq!(s.plan(true), Plan::Script);
    assert_eq!(s.plan(false), Plan::Fail(script_disabled()));
}

#[test]
fn plans_per_variant() {
    assert_eq!(
        Function::Normal("math::sum".to_string(), vec![]).plan(false),
        Plan::Builtin { name: "math::sum".to_string() }
    );
    assert_eq!(
        Function::Custom("double".to_string(), vec![]).plan(false),
        Plan::Stored { qualified: "fn::double".to_string() }
    );
    assert_eq!(
        Function::Anonymous(Value::Param("f".to_string()), vec![], true).plan(false),
        Plan::Closure { target: Target::Lookup("f".to_string()), evaluate_args: false }
    );
    assert_eq!(qualified_name("x"), "fn::x");
}

#[test]
fn binding_coerces_each_argument() {
    let d = def(vec![("a", NUM), ("b", OPT)], Permission::Full, None);
    let b = bind_args(&d, vec![Value::Number(1), Value::Null]).unwrap();
    assert_eq!(b, vec![("a".to_string(), Value::Number(1)), ("b".to_string(), Value::Null)]);
    assert_eq!(
        bind_args(&d, vec![Value::Strand("x".to_string()), Value::Number(2)]),
        Err(CallError::Coerce { message: "Expected a number but found 'x'".to_string() })
    );
    assert_eq!(
        bind_args(&d, vec![Value::Number(1), Value::Bool(true)]),
        Err(CallError::Coerce { message: "Expected a option<number> but found true".to_string() })
    );
    assert_eq!(Value::Bool(true).coerce_to_kind(Kind::Any), Ok(Value::Bool(true)));
    let short = bind_args(&d, vec![Value::Number(7)]).unwrap();
    assert_eq!(short, vec![("a".to_string(), Value::Number(7))]);
}

#[test]
fn return_kind_is_enforced() {
    assert_eq!(coerce_return("double", Value::Number(2), Some(NUM)), Ok(Value::Number(2)));
    assert_eq!(coerce_return("double", Value::Null, None), Ok(Value::Null));
    assert_eq!(
        coerce_return("double", Value::Null, Some(Kind::Exactly(Scalar::Bool))),
        Err(CallError::ReturnCoerce { name: "double".to_string(), message: "Expected a bool but found NULL".to_string() })
    );
    let d = def(vec![], Permission::Full, Some(Kind::Exactly(Scalar::Text)));
    assert_eq!(
        finish_custom(&d, Err(ControlFlow::Return(Value::Strand("a".to_string())))),
        Ok(Value::Strand("a".to_string()))
    );
    assert_eq!(
        finish_custom(&d, Ok(Value::Number(1))),
        Err(ControlFlow::Fail(CallError::ReturnCoerce {
            name: "double".to_string(),
            message: "Expected a string but found 1".to_string()
        }))
    );
    let oops = Err(ControlFlow::Fail(CallError::InvalidScript { message: "boom".to_string() }));
    assert_eq!(finish_custom(&d, oops.clone()), oops);
}

#[test]
fn environment() {
    assert_eq!(init(), Ok(()));
    assert_eq!(release("2.1.0", "linux", "x86_64"), "2.1.0 for linux on x86_64");
}
