use vstd::prelude::*;
use crate::error::CallError;
use crate::function::Function;
use crate::text::{decimal, push_decimal};
use crate::value::{Kind, Scalar, Value};

verus! {

/// Who may run a stored function.
#[derive(Clone, Debug, PartialEq, Eq, Hash)]
pub enum Permission {
    Full,
    Deny,
    /// Those for whom this expression evaluates to a truthy value.
    Specific(Value),
}

/// A stored function, as the catalog holds it.
#[derive(Clone, Debug, PartialEq, Eq, Hash)]
pub struct Definition {
    pub name: String,
    pub args: Vec<(String, Kind)>,
    pub permissions: Permission,
    pub returns: Option<Kind>,
}

/// The outcome of evaluating an expression other than a plain value.
#[derive(Clone, Debug, PartialEq, Eq, Hash)]
pub enum ControlFlow {
    Break,
    Continue,
    /// A function-local return, with its value.
    Return(Value),
    Fail(CallError),
}

/// Whether a trailing parameter of this kind may be left out.
pub open spec fn relaxed(k: Kind) -> bool {
    k is Any || k is Optional
}

/// The number of arguments a call must give: every parameter up to the
/// last one that is neither optional nor of any kind.
pub open spec fn required_count(k: Seq<Kind>) -> nat
    decreases k.len(),
{
    if k.len() == 0 {
        0
    } else if relaxed(k.last()) {
        required_count(k.drop_last())
    } else {
        k.len()
    }
}

pub open spec fn param_kinds(d: Definition) -> Seq<Kind> {
    d.args@.map_values(|p: (String, Kind)| p.1)
}

/// The message of an arity failure for the bounds `min` and `max`.
pub open spec fn arity_message(min: nat, max: nat) -> Seq<char> {
    if min == 1 && max == 1 {
        "The function expects 1 argument."@
    } else if min == max {
        "The function expects "@ + decimal(min) + " arguments."@
    } else {
        "The function expects "@ + decimal(min) + " to "@ + decimal(max) + " arguments."@
    }
}

/// Whether the permission of a stored function lets the call go on, given
/// whether permissions are checked and what its predicate evaluated to.
pub open spec fn permitted(p: Permission, check: bool, verdict: Value) -> bool {
    !check || match p {
        Permission::Full => true,
        Permission::Deny => false,
        Permission::Specific(_) => verdict.truthy(),
    }
}

/// The full name of a stored function.
pub open spec fn qualified(name: Seq<char>) -> Seq<char> {
    "fn::"@ + name
}

/// The name of a stored function with its `fn::` prefix.
pub fn qualified_name(name: &str) -> (r: String)
    ensures
        r@ == qualified(name@),
{
    let mut r = String::from_str("fn::");
    r.append(name);
    r
}

fn is_relaxed(k: &Kind) -> (r: bool)
    ensures
        r == relaxed(*k),
{
    match k {
        Kind::Any => true,
        Kind::Optional(_) => true,
        _ => false,
    }
}

/// The number of arguments that a call of `d` must give.
pub fn min_args(d: &Definition) -> (r: usize)
    ensures
        r == required_count(param_kinds(*d)),
{
    let ghost ks = param_kinds(*d);
    let mut i: usize = d.args.len();
    assert(ks.take(i as int) =~= ks);
    while i > 0 && is_relaxed(&d.args[i - 1].1)
        invariant
            0 <= i <= d.args.len(),
            ks == param_kinds(*d),
            ks.len() == d.args.len(),
            required_count(ks) == required_count(ks.take(i as int)),
            forall|j: int| 0 <= j < ks.len() ==> ks[j] == (#[trigger] d.args@[j]).1,
        decreases i,
    {
        assert(ks.take(i as int).drop_last() =~= ks.take(i as int - 1));
        i = i - 1;
    }
    if i > 0 {
        assert(ks.take(i as int).last() == ks[i as int - 1]);
    }
    assert(ks.take(i as int).len() == i);
    i
}

/// The message of an arity failure for the bounds `min` and `max`.
pub fn arity_text(min: usize, max: usize) -> (r: String)
    ensures
        r@ == arity_message(min as nat, max as nat),
{
    if min == 1 && max == 1 {
        String::from_str("The function expects 1 argument.")
    } else if min == max {
        let mut r = String::from_str("The function expects ");
        push_decimal(&mut r, min as u64);
        r.append(" arguments.");
        r
    } else {
        let mut r = String::from_str("The function expects ");
        push_decimal(&mut r, min as u64);
        r.append(" to ");
        push_decimal(&mut r, max as u64);
        r.append(" arguments.");
        r
    }
}

/// Checks that a call of `d` with `given` arguments gives neither too few
/// nor too many.
pub fn check_arity(d: &Definition, given: usize) -> (r: Result<(), CallError>)
    ensures
        r is Ok <==> required_count(param_kinds(*d)) <= given <= d.args@.len(),
        r matches Err(e) ==> (e matches CallError::InvalidArguments { name, message }
            && name@ == qualified(d.name@)
            && message@ == arity_message(required_count(param_kinds(*d)), d.args@.len())),
{
    let min = min_args(d);
    let max = d.args.len();
    if given < min || max < given {
        Err(CallError::InvalidArguments { name: qualified_name(d.name.as_str()), message: arity_text(min, max) })
    } else {
        Ok(())
    }
}

/// The predicate to evaluate, with permissions disabled, before a call of
/// a stored function: only a specific permission that is checked has one.
pub fn permission_predicate(p: &Permission, check: bool) -> (r: Option<&Value>)
    ensures
        r matches Some(e) ==> check && *p == Permission::Specific(*e),
        r is None ==> !check || !(p is Specific),
{
    match p {
        Permission::Specific(e) if check => Some(e),
        _ => None,
    }
}

/// What a permission predicate evaluates to when it is a constant, which
/// needs no evaluation.
pub fn literal_verdict(e: &Value) -> (r: Option<Value>)
    ensures
        r matches Some(v) ==> v == *e,
        r is Some <==> (e is Absent || e is Null || e is Bool || e is Number || e is Strand),
{
    match e {
        Value::Absent | Value::Null | Value::Bool(_) | Value::Number(_) | Value::Strand(_) => Some(e.copy()),
        _ => None,
    }
}

/// Checks the permission of the stored function `name`. `verdict` is what
/// its predicate evaluated to; it is read only for a specific permission.
pub fn check_permission(name: &str, p: &Permission, check: bool, verdict: &Value) -> (r: Result<(), CallError>)
    ensures
        r is Ok <==> permitted(*p, check, *verdict),
        r matches Err(e) ==> (e matches CallError::FunctionPermissions { name: n } && n@ == name@),
{
    if !check {
        return Ok(());
    }
    match p {
        Permission::Full => Ok(()),
        Permission::Deny => Err(CallError::FunctionPermissions { name: String::from_str(name) }),
        Permission::Specific(_) => if verdict.is_truthy() {
            Ok(())
        } else {
            Err(CallError::FunctionPermissions { name: String::from_str(name) })
        },
    }
}

/// The checks before the arguments of a stored function are evaluated:
/// its permission first, then the number of arguments.
pub open spec fn admitted(d: Definition, check: bool, given: nat, verdict: Value) -> bool {
    permitted(d.permissions, check, verdict)
        && required_count(param_kinds(d)) <= given <= d.args@.len()
}

/// Runs the permission and arity checks of a call of `d` with `given`
/// arguments; `verdict` is what the permission predicate evaluated to.
pub fn check_custom(d: &Definition, check: bool, given: usize, verdict: &Value) -> (r: Result<(), CallError>)
    ensures
        r is Ok <==> admitted(*d, check, given as nat, *verdict),
        !permitted(d.permissions, check, *verdict) ==> (r matches Err(CallError::FunctionPermissions { name })
            && name@ == d.name@),
        (permitted(d.permissions, check, *verdict) && !(required_count(param_kinds(*d)) <= given <= d.args@.len()))
            ==> (r matches Err(CallError::InvalidArguments { name, message }) && name@ == qualified(d.name@)
            && message@ == arity_message(required_count(param_kinds(*d)), d.args@.len())),
{
    match check_permission(d.name.as_str(), &d.permissions, check, verdict) {
        Err(e) => Err(e),
        Ok(()) => check_arity(d, given),
    }
}

/// How the target of a closure call is resolved.
#[derive(Clone, Debug, PartialEq, Eq, Hash)]
pub enum Target {
    /// The target is a closure already.
    Ready(Value),
    /// The target is the variable of this name; an unbound one resolves to `Absent`.
    Lookup(String),
    /// The target is an expression to evaluate.
    Evaluate,
    /// The target resolves to `Absent`.
    Missing,
}

/// How the target `t` of a closure call is resolved.
pub open spec fn closure_target_of(t: Value) -> Target {
    match t {
        Value::Closure(_) => Target::Ready(t),
        Value::Param(p) => Target::Lookup(p),
        Value::Block(_) | Value::Subquery(_) | Value::Idiom(_) | Value::Function(_) => Target::Evaluate,
        _ => Target::Missing,
    }
}

/// How to resolve the target of a closure call.
pub fn closure_target(target: &Value) -> (r: Target)
    ensures
        r == closure_target_of(*target),
{
    match target {
        Value::Closure(_) => Target::Ready(target.copy()),
        Value::Param(p) => Target::Lookup(p.clone()),
        Value::Block(_) | Value::Subquery(_) | Value::Idiom(_) | Value::Function(_) => Target::Evaluate,
        _ => Target::Missing,
    }
}

/// The value of a looked-up variable: `Absent` where it is not bound.
pub fn bound_or_absent(found: Option<&Value>) -> (r: Value)
    ensures
        found matches Some(v) ==> r == *v,
        found is None ==> r == Value::Absent,
{
    match found {
        Some(v) => v.copy(),
        None => Value::Absent,
    }
}

/// What evaluating a call does first.
#[derive(Clone, Debug, PartialEq, Eq, Hash)]
pub enum Plan {
    /// Check that the builtin `name` is allowed, evaluate the arguments
    /// concurrently, and run the builtin.
    Builtin { name: String },
    /// Check that `qualified` is allowed, fetch the definition, check its
    /// permission and arity, evaluate the arguments and run its body.
    Stored { qualified: String },
    /// Check that scripting is allowed, evaluate the arguments and run the script.
    Script,
    /// Resolve the target as given; evaluate the arguments only when
    /// `evaluate_args` holds.
    Closure { target: Target, evaluate_args: bool },
    /// The call fails at once.
    Fail(CallError),
}

impl Function {
    /// What evaluating this call does first; `scripting` says whether
    /// embedded scripts can run here.
    pub fn plan(&self, scripting: bool) -> (r: Plan)
        ensures
            self matches Function::Normal(n, _) ==> (r matches Plan::Builtin { name } && name@ == n@),
            self matches Function::Custom(n, _) ==> (r matches Plan::Stored { qualified: q } && q@ == qualified(n@)),
            (self is Script && scripting) ==> r == Plan::Script,
            (self is Script && !scripting) ==> (r matches Plan::Fail(CallError::InvalidScript { message })
                && message@ == "Embedded functions are not enabled."@),
            self matches Function::Anonymous(t, _, pre) ==> (r matches Plan::Closure { target, evaluate_args }
                && target == closure_target_of(*t) && evaluate_args == !*pre),
    {
        match self {
            Function::Normal(n, _) => Plan::Builtin { name: n.clone() },
            Function::Custom(n, _) => Plan::Stored { qualified: qualified_name(n.as_str()) },
            Function::Script(_, _) => if scripting {
                Plan::Script
            } else {
                Plan::Fail(script_disabled())
            },
            Function::Anonymous(t, _, pre) => Plan::Closure { target: closure_target(t), evaluate_args: !*pre },
        }
    }
}

/// The value that a stored function's body gave, by finishing or by a
/// function-local return.
pub open spec fn body_value(body: Result<Value, ControlFlow>) -> Option<Value> {
    match body {
        Ok(v) => Some(v),
        Err(ControlFlow::Return(v)) => Some(v),
        _ => None,
    }
}

/// The result of a call of `d` from what its body gave: a function-local
/// return gives its value, and the value is held to the declared return
/// kind; every other failure passes through.
pub fn finish_custom(d: &Definition, body: Result<Value, ControlFlow>) -> (r: Result<Value, ControlFlow>)
    ensures
        body_value(body) is None ==> r == body,
        (body_value(body) matches Some(x) && (d.returns is None || fits(x, d.returns->0))) ==> r == Ok::<
            Value,
            ControlFlow,
        >(body_value(body)->0),
        (body_value(body) matches Some(x) && d.returns matches Some(k) && !fits(x, k)) ==> (r matches Err(
            ControlFlow::Fail(CallError::ReturnCoerce { name, message }),
        ) && name@ == d.name@ && message@ == coerce_message(body_value(body)->0, d.returns->0)),
{
    match catch_return(body) {
        Ok(v) => match coerce_return(d.name.as_str(), v, d.returns) {
            Ok(x) => Ok(x),
            Err(e) => Err(ControlFlow::Fail(e)),
        },
        Err(f) => Err(f),
    }
}

/// The message of a call of something that is not a closure.
pub open spec fn not_callable_message(v: Value) -> Seq<char> {
    "'"@ + v.kind_name() + "' is not a function"@
}

/// The source of the closure that a call resolved to; a call of anything
/// else fails, naming the type of what it resolved to.
pub fn callable(resolved: &Value) -> (r: Result<&String, CallError>)
    ensures
        resolved is Closure ==> r == Ok::<&String, CallError>(&resolved->Closure_0),
        !(resolved is Closure) ==> (r matches Err(CallError::InvalidFunction { name, message })
            && name@ == "ANONYMOUS"@ && message@ == not_callable_message(*resolved)),
{
    match resolved {
        Value::Closure(src) => Ok(src),
        _ => {
            let mut message = String::from_str("'");
            message.append(resolved.kindof());
            message.append("' is not a function");
            Err(CallError::InvalidFunction { name: String::from_str("ANONYMOUS"), message })
        },
    }
}

/// The result of a stored function's body: a function-local return ends
/// here and gives its value; every other outcome passes through.
pub fn catch_return(r: Result<Value, ControlFlow>) -> (out: Result<Value, ControlFlow>)
    ensures
        r matches Err(ControlFlow::Return(v)) ==> out == Ok::<Value, ControlFlow>(v),
        !(r matches Err(ControlFlow::Return(_))) ==> out == r,
{
    match r {
        Err(ControlFlow::Return(v)) => Ok(v),
        other => other,
    }
}

/// The error of an embedded script where scripting is not available.
pub fn script_disabled() -> (r: CallError)
    ensures
        r matches CallError::InvalidScript { message } && message@ == "Embedded functions are not enabled."@,
{
    CallError::InvalidScript { message: String::from_str("Embedded functions are not enabled.") }
}

pub open spec fn fits_scalar(v: Value, s: Scalar) -> bool {
    match s {
        Scalar::Bool => v is Bool,
        Scalar::Number => v is Number,
        Scalar::Text => v is Strand,
    }
}

/// Whether a value has a declared kind.
pub open spec fn fits(v: Value, k: Kind) -> bool {
    match k {
        Kind::Any => true,
        Kind::Exactly(s) => fits_scalar(v, s),
        Kind::Optional(s) => v is Absent || v is Null || fits_scalar(v, s),
    }
}

pub open spec fn scalar_name(s: Scalar) -> Seq<char> {
    match s {
        Scalar::Bool => "bool"@,
        Scalar::Number => "number"@,
        Scalar::Text => "string"@,
    }
}

pub open spec fn kind_text(k: Kind) -> Seq<char> {
    match k {
        Kind::Any => "any"@,
        Kind::Exactly(s) => scalar_name(s),
        Kind::Optional(s) => "option<"@ + scalar_name(s) + ">"@,
    }
}

/// The message of a value that does not have its declared kind.
pub open spec fn coerce_message(v: Value, k: Kind) -> Seq<char> {
    "Expected a "@ + kind_text(k) + " but found "@ + v.text()
}

fn scalar_text(s: Scalar) -> (r: &'static str)
    ensures
        r@ == scalar_name(s),
{
    match s {
        Scalar::Bool => "bool",
        Scalar::Number => "number",
        Scalar::Text => "string",
    }
}

fn fits_scalar_exec(v: &Value, s: Scalar) -> (r: bool)
    ensures
        r == fits_scalar(*v, s),
{
    match s {
        Scalar::Bool => matches!(v, Value::Bool(_)),
        Scalar::Number => matches!(v, Value::Number(_)),
        Scalar::Text => matches!(v, Value::Strand(_)),
    }
}

/// Whether `v` has the kind `k`.
pub fn fits_kind(v: &Value, k: Kind) -> (r: bool)
    ensures
        r == fits(*v, k),
{
    match k {
        Kind::Any => true,
        Kind::Exactly(s) => fits_scalar_exec(v, s),
        Kind::Optional(s) => matches!(v, Value::Absent) || matches!(v, Value::Null) || fits_scalar_exec(v, s),
    }
}

/// The message of a value that does not have its declared kind.
pub fn coerce_text(v: &Value, k: Kind) -> (r: String)
    ensures
        r@ == coerce_message(*v, k),
{
    let mut r = String::from_str("Expected a ");
    match k {
        Kind::Any => r.append("any"),
        Kind::Exactly(s) => r.append(scalar_text(s)),
        Kind::Optional(s) => {
            r.append("option<");
            r.append(scalar_text(s));
            r.append(">");
        },
    }
    r.append(" but found ");
    v.write_to(&mut r);
    assert(r@ =~= coerce_message(*v, k));
    r
}

impl Value {
    /// This value, where it has the kind `k`.
    pub fn coerce_to_kind(self, k: Kind) -> (r: Result<Value, CallError>)
        ensures
            fits(self, k) ==> r == Ok::<Value, CallError>(self),
            !fits(self, k) ==> (r matches Err(CallError::Coerce { message }) && message@ == coerce_message(self, k)),
    {
        if fits_kind(&self, k) {
            Ok(self)
        } else {
            Err(CallError::Coerce { message: coerce_text(&self, k) })
        }
    }
}

/// The result of a stored function named `name`, held to its declared
/// return kind where it has one.
pub fn coerce_return(name: &str, result: Value, returns: Option<Kind>) -> (r: Result<Value, CallError>)
    ensures
        (returns is None || fits(result, returns->0)) ==> r == Ok::<Value, CallError>(result),
        (returns matches Some(k) && !fits(result, k)) ==> (r matches Err(CallError::ReturnCoerce { name: n, message })
            && n@ == name@ && message@ == coerce_message(result, returns->0)),
{
    match returns {
        None => Ok(result),
        Some(k) => if fits_kind(&result, k) {
            Ok(result)
        } else {
            Err(CallError::ReturnCoerce { name: String::from_str(name), message: coerce_text(&result, k) })
        },
    }
}

/// The number of parameters that `n` argument values bind.
pub open spec fn bound_count(d: Definition, n: nat) -> nat {
    if n <= d.args@.len() {
        n
    } else {
        d.args@.len()
    }
}

/// The bindings of a stored function's parameters to the evaluated
/// arguments, pair by pair as far as both go, each value held to its
/// parameter's kind. Parameters left without a value are not bound.
pub fn bind_args(d: &Definition, vals: Vec<Value>) -> (r: Result<Vec<(String, Value)>, CallError>)
    ensures
        r is Ok <==> forall|i: int| 0 <= i < bound_count(*d, vals@.len()) ==> fits(#[trigger] vals@[i], d.args@[i].1),
        r matches Ok(b) ==> b@.len() == bound_count(*d, vals@.len()) && forall|i: int| 0 <= i < b@.len() ==> (
        #[trigger] b@[i]).0 == d.args@[i].0 && b@[i].1 == vals@[i],
        r matches Err(e) ==> exists|i: int| 0 <= i < bound_count(*d, vals@.len()) && !fits(#[trigger] vals@[i], d.args@[i].1)
            && (forall|j: int| 0 <= j < i ==> fits(#[trigger] vals@[j], d.args@[j].1))
            && (e matches CallError::Coerce { message } && message@ == coerce_message(vals@[i], d.args@[i].1)),
{
    let n: usize = if vals.len() <= d.args.len() { vals.len() } else { d.args.len() };
    let mut b: Vec<(String, Value)> = Vec::new();
    let mut i: usize = 0;
    while i < n
        invariant
            0 <= i <= n,
            n == bound_count(*d, vals@.len()),
            n <= vals@.len(),
            n <= d.args@.len(),
            b@.len() == i,
            forall|j: int| 0 <= j < i ==> fits(#[trigger] vals@[j], d.args@[j].1),
            forall|j: int| 0 <= j < i ==> (#[trigger] b@[j]).0 == d.args@[j].0 && b@[j].1 == vals@[j],
        decreases n - i,
    {
        let k = d.args[i].1;
        if !fits_kind(&vals[i], k) {
            return Err(CallError::Coerce { message: coerce_text(&vals[i], k) });
        }
        b.push((d.args[i].0.clone(), vals[i].copy()));
        i = i + 1;
    }
    Ok(b)
}

/// A stored function whose permission is the constant `false` is refused
/// whatever the call gives it; one with full permission is never refused
/// for permission reasons, only for its number of arguments.
pub proof fn lemma_permission_policies(d: Definition)
    ensures
        d.permissions == Permission::Specific(Value::Bool(false)) ==> forall|given: nat| !#[trigger] admitted(
            d,
            true,
            given,
            Value::Bool(false),
        ),
        d.permissions == Permission::Full ==> forall|check: bool, given: nat, verdict: Value| #[trigger]
            admitted(d, check, given, verdict) == (required_count(param_kinds(d)) <= given
                <= d.args@.len()),
{
}

} // verus!
