use vstd::prelude::*;
use crate::error::CallError;
use crate::text::same_text;
use crate::value::Value;

verus! {

/// A function call expression.
#[derive(Clone, Debug, PartialEq, Eq, Hash)]
pub enum Function {
    /// A call of a builtin, by name.
    Normal(String, Vec<Value>),
    /// A call of a stored function, by its name without the `fn::` prefix.
    Custom(String, Vec<Value>),
    /// An embedded script, by its source text.
    Script(String, Vec<Value>),
    /// A call of a closure: its target, its arguments, and whether the
    /// arguments are already evaluated.
    Anonymous(Value, Vec<Value>, bool),
}

/// The fast accumulator path that a builtin call can take.
#[derive(Clone, Copy, Debug, PartialEq, Eq, Hash)]
pub enum OptimisedAggregate {
    Unoptimised,
    Count,
    CountFunction,
    MathMax,
    MathMin,
    MathSum,
    MathMean,
    TimeMax,
    TimeMin,
}

/// The field name under which a call's result is projected.
#[derive(Clone, Debug, PartialEq, Eq, Hash)]
pub struct Idiom {
    pub field: String,
}

/// The record of a closure call as it was stored before the arguments
/// could be marked as already evaluated.
#[derive(Clone, Debug, PartialEq, Eq, Hash)]
pub struct OldAnonymousFields(pub Value, pub Vec<Value>);

/// Builtins that can accumulate a result row by row.
pub open spec fn rolling_name(n: Seq<char>) -> bool {
    n == "count"@ || n == "math::max"@ || n == "math::mean"@ || n == "math::min"@
        || n == "math::sum"@ || n == "time::max"@ || n == "time::min"@
}

/// Builtins that group all rows into one result.
pub open spec fn aggregate_name(n: Seq<char>) -> bool {
    n == "array::distinct"@ || n == "array::first"@ || n == "array::flatten"@
        || n == "array::group"@ || n == "array::last"@ || n == "count"@
        || n == "math::bottom"@ || n == "math::interquartile"@ || n == "math::max"@
        || n == "math::mean"@ || n == "math::median"@ || n == "math::midhinge"@
        || n == "math::min"@ || n == "math::mode"@ || n == "math::nearestrank"@
        || n == "math::percentile"@ || n == "math::sample"@ || n == "math::spread"@
        || n == "math::stddev"@ || n == "math::sum"@ || n == "math::top"@
        || n == "math::trimean"@ || n == "math::variance"@ || n == "time::max"@
        || n == "time::min"@
}

/// Every builtin that accumulates row by row also groups all rows.
pub proof fn lemma_rolling_names_are_aggregate(n: Seq<char>)
    ensures
        rolling_name(n) ==> aggregate_name(n),
{
}

fn is_rolling_name(n: &str) -> (r: bool)
    ensures
        r == rolling_name(n@),
{
    same_text(n, "count") || same_text(n, "math::max") || same_text(n, "math::mean")
        || same_text(n, "math::min") || same_text(n, "math::sum") || same_text(n, "time::max")
        || same_text(n, "time::min")
}

fn is_aggregate_name(n: &str) -> (r: bool)
    ensures
        r == aggregate_name(n@),
{
    same_text(n, "array::distinct") || same_text(n, "array::first") || same_text(
        n,
        "array::flatten",
    ) || same_text(n, "array::group") || same_text(n, "array::last") || same_text(n, "count")
        || same_text(n, "math::bottom") || same_text(n, "math::interquartile") || same_text(
        n,
        "math::max",
    ) || same_text(n, "math::mean") || same_text(n, "math::median") || same_text(
        n,
        "math::midhinge",
    ) || same_text(n, "math::min") || same_text(n, "math::mode") || same_text(
        n,
        "math::nearestrank",
    ) || same_text(n, "math::percentile") || same_text(n, "math::sample") || same_text(
        n,
        "math::spread",
    ) || same_text(n, "math::stddev") || same_text(n, "math::sum") || same_text(n, "math::top")
        || same_text(n, "math::trimean") || same_text(n, "math::variance") || same_text(
        n,
        "time::max",
    ) || same_text(n, "time::min")
}

/// The accumulator path of a builtin with the given name and argument count.
pub open spec fn optimised_for(n: Seq<char>, nargs: nat) -> OptimisedAggregate {
    if n == "count"@ {
        if nargs == 0 {
            OptimisedAggregate::Count
        } else {
            OptimisedAggregate::CountFunction
        }
    } else if n == "math::max"@ {
        OptimisedAggregate::MathMax
    } else if n == "math::mean"@ {
        OptimisedAggregate::MathMean
    } else if n == "math::min"@ {
        OptimisedAggregate::MathMin
    } else if n == "math::sum"@ {
        OptimisedAggregate::MathSum
    } else if n == "time::max"@ {
        OptimisedAggregate::TimeMax
    } else if n == "time::min"@ {
        OptimisedAggregate::TimeMin
    } else {
        OptimisedAggregate::Unoptimised
    }
}

/// The arguments of an accumulator update: the running value takes the
/// first slot, which is added when there is none.
pub open spec fn aggregated(a: Seq<Value>, v: Value) -> Seq<Value> {
    if a.len() == 0 {
        seq![v]
    } else {
        a.update(0, v)
    }
}

/// A copy of a list of values.
pub fn copy_values(a: &Vec<Value>) -> (r: Vec<Value>)
    ensures
        r@ == a@,
{
    let mut r: Vec<Value> = Vec::new();
    let mut i: usize = 0;
    while i < a.len()
        invariant
            0 <= i <= a.len(),
            r@ == a@.take(i as int),
        decreases a.len() - i,
    {
        r.push(a[i].copy());
        i = i + 1;
        assert(r@ =~= a@.take(i as int));
    }
    assert(a@.take(a.len() as int) =~= a@);
    r
}

fn any_writeable(a: &Vec<Value>) -> (r: bool)
    ensures
        r == exists|i: int| 0 <= i < a@.len() && #[trigger] a@[i].writes(),
{
    let mut i: usize = 0;
    while i < a.len()
        invariant
            0 <= i <= a.len(),
            forall|j: int| 0 <= j < i ==> !(#[trigger] a@[j].writes()),
        decreases a.len() - i,
    {
        if a[i].writeable() {
            return true;
        }
        i = i + 1;
    }
    false
}

fn all_static(a: &Vec<Value>) -> (r: bool)
    ensures
        r == forall|i: int| 0 <= i < a@.len() ==> #[trigger] a@[i].fixed(),
{
    let mut i: usize = 0;
    while i < a.len()
        invariant
            0 <= i <= a.len(),
            forall|j: int| 0 <= j < i ==> #[trigger] a@[j].fixed(),
        decreases a.len() - i,
    {
        if !a[i].is_static() {
            return false;
        }
        i = i + 1;
    }
    true
}

impl Function {
    /// The name of a builtin or stored function.
    pub open spec fn spec_name(self) -> Option<Seq<char>> {
        match self {
            Function::Normal(n, _) => Some(n@),
            Function::Custom(n, _) => Some(n@),
            _ => None,
        }
    }

    /// The positional arguments of a builtin or stored function call.
    pub open spec fn spec_args(self) -> Seq<Value> {
        match self {
            Function::Normal(_, a) => a@,
            Function::Custom(_, a) => a@,
            _ => Seq::empty(),
        }
    }

    pub open spec fn spec_writeable(self) -> bool {
        match self {
            Function::Custom(_, _) => true,
            Function::Script(_, _) => true,
            Function::Normal(n, a) => n@ == "api::invoke"@ || exists|i: int|
                0 <= i < a@.len() && #[trigger] a@[i].writes(),
            Function::Anonymous(_, a, _) => exists|i: int| 0 <= i < a@.len() && #[trigger] a@[i].writes(),
        }
    }

    pub open spec fn spec_static(self) -> bool {
        match self {
            Function::Normal(_, a) => forall|i: int| 0 <= i < a@.len() ==> #[trigger] a@[i].fixed(),
            _ => false,
        }
    }

    pub open spec fn spec_rolling(self) -> bool {
        match self {
            Function::Normal(n, _) => rolling_name(n@),
            _ => false,
        }
    }

    pub open spec fn spec_aggregate(self) -> bool {
        match self {
            Function::Normal(n, _) => aggregate_name(n@),
            _ => false,
        }
    }

    pub open spec fn spec_optimised(self) -> OptimisedAggregate {
        match self {
            Function::Normal(n, a) => optimised_for(n@, a@.len()),
            _ => OptimisedAggregate::Unoptimised,
        }
    }

    /// The name of a builtin or stored function; none for scripts and closures.
    pub fn name(&self) -> (r: Option<&str>)
        ensures
            r matches Some(s) ==> self.spec_name() == Some(s@),
            r is None <==> self.spec_name() is None,
    {
        match self {
            Function::Normal(n, _) => Some(n.as_str()),
            Function::Custom(n, _) => Some(n.as_str()),
            _ => None,
        }
    }

    /// The arguments of a builtin or stored function call; empty for scripts and closures.
    pub fn args(&self) -> (r: &[Value])
        ensures
            r@ == self.spec_args(),
    {
        match self {
            Function::Normal(_, a) => a.as_slice(),
            Function::Custom(_, a) => a.as_slice(),
            _ => &[],
        }
    }

    /// The field name of this call's result in a row without an alias.
    pub open spec fn spec_idiom(self) -> Seq<char> {
        match self {
            Function::Normal(n, _) => n@,
            Function::Custom(n, _) => "fn::"@ + n@,
            _ => "function"@,
        }
    }

    /// The field name of this call's result in a row without an alias.
    pub fn to_idiom(&self) -> (r: Idiom)
        ensures
            r.field@ == self.spec_idiom(),
    {
        match self {
            Function::Anonymous(_, _, _) => Idiom { field: String::from_str("function") },
            Function::Script(_, _) => Idiom { field: String::from_str("function") },
            Function::Normal(f, _) => Idiom { field: f.clone() },
            Function::Custom(f, _) => {
                let mut field = String::from_str("fn::");
                field.append(f.as_str());
                Idiom { field }
            },
        }
    }

    /// The accumulator update for this builtin call: the same builtin with
    /// the running value `val` in its first argument slot.
    pub fn aggregate(&self, val: Value) -> (r: Result<Function, CallError>)
        ensures
            self is Normal ==> (r matches Ok(Function::Normal(m, b)) && m@ == self->Normal_0@
                && b@ == aggregated(self->Normal_1@, val)),
            !(self is Normal) ==> (r matches Err(CallError::InvalidAggregate { message })
                && message@ == "Encountered a non-aggregate function: "@ + self.text()),
    {
        match self {
            Function::Normal(n, a) => {
                let mut b = copy_values(a);
                if b.len() == 0 {
                    b.insert(0, val);
                } else {
                    b.remove(0);
                    b.insert(0, val);
                }
                assert(b@ =~= aggregated(a@, val));
                Ok(Function::Normal(n.clone(), b))
            },
            _ => {
                let mut message = String::from_str("Encountered a non-aggregate function: ");
                let text = self.render();
                message.append(text.as_str());
                Err(CallError::InvalidAggregate { message })
            },
        }
    }

    /// Whether this is a call of a stored function.
    pub fn is_custom(&self) -> (r: bool)
        ensures
            r == (self is Custom),
    {
        matches!(self, Function::Custom(_, _))
    }

    /// Whether this is an embedded script.
    pub fn is_script(&self) -> (r: bool)
        ensures
            r == (self is Script),
    {
        matches!(self, Function::Script(_, _))
    }

    /// Whether this is a closure call.
    pub fn is_inline(&self) -> (r: bool)
        ensures
            r == (self is Anonymous),
    {
        matches!(self, Function::Anonymous(_, _, _))
    }

    /// Whether this call may write: stored functions, scripts and the API
    /// builtin always may; other builtins and closure calls may where any of
    /// their arguments may.
    pub fn writeable(&self) -> (r: bool)
        ensures
            r == self.spec_writeable(),
    {
        match self {
            Function::Custom(_, _) => true,
            Function::Script(_, _) => true,
            Function::Normal(f, a) => same_text(f.as_str(), "api::invoke") || any_writeable(a),
            Function::Anonymous(_, a, _) => any_writeable(a),
        }
    }

    /// Whether this is a builtin call whose arguments are all constants.
    pub fn is_static(&self) -> (r: bool)
        ensures
            r == self.spec_static(),
    {
        match self {
            Function::Normal(_, a) => all_static(a),
            _ => false,
        }
    }

    /// Whether this is a builtin that accumulates row by row.
    pub fn is_rolling(&self) -> (r: bool)
        ensures
            r == self.spec_rolling(),
    {
        match self {
            Function::Normal(f, _) => is_rolling_name(f.as_str()),
            _ => false,
        }
    }

    /// Whether this is a builtin that groups all rows.
    pub fn is_aggregate(&self) -> (r: bool)
        ensures
            r == self.spec_aggregate(),
    {
        match self {
            Function::Normal(f, _) => is_aggregate_name(f.as_str()),
            _ => false,
        }
    }

    /// The accumulator path that this call can take.
    pub fn get_optimised_aggregate(&self) -> (r: OptimisedAggregate)
        ensures
            r == self.spec_optimised(),
    {
        match self {
            Function::Normal(f, v) => {
                let f = f.as_str();
                if same_text(f, "count") {
                    if v.len() == 0 {
                        OptimisedAggregate::Count
                    } else {
                        OptimisedAggregate::CountFunction
                    }
                } else if same_text(f, "math::max") {
                    OptimisedAggregate::MathMax
                } else if same_text(f, "math::mean") {
                    OptimisedAggregate::MathMean
                } else if same_text(f, "math::min") {
                    OptimisedAggregate::MathMin
                } else if same_text(f, "math::sum") {
                    OptimisedAggregate::MathSum
                } else if same_text(f, "time::max") {
                    OptimisedAggregate::TimeMax
                } else if same_text(f, "time::min") {
                    OptimisedAggregate::TimeMin
                } else {
                    OptimisedAggregate::Unoptimised
                }
            },
            _ => OptimisedAggregate::Unoptimised,
        }
    }

    /// Whether this is `count()` with no argument.
    pub fn is_count_all(&self) -> (r: bool)
        ensures
            r == (self matches Function::Normal(f, p) && f@ == "count"@ && p@.len() == 0),
    {
        match self {
            Function::Normal(f, p) => same_text(f.as_str(), "count") && p.len() == 0,
            _ => false,
        }
    }

    /// Reads a closure call stored before the arguments could be marked as
    /// evaluated: they are taken as not yet evaluated.
    pub fn convert_anonymous_arg_computation(old: OldAnonymousFields, _revision: u16) -> (r: Result<
        Function,
        revision::Error,
    >)
        ensures
            r matches Ok(f) && f == Function::Anonymous(old.0, old.1, false),
    {
        Ok(Function::Anonymous(old.0, old.1, false))
    }
}

} // verus!
