use vstd::prelude::*;

verus! {

/// A failure of a function call.
#[derive(Clone, Debug, PartialEq, Eq, Hash)]
pub enum CallError {
    /// A rewrite for streaming aggregation was asked of a call that is not a builtin.
    InvalidAggregate { message: String },
    /// A closure call whose target is not a closure.
    InvalidFunction { name: String, message: String },
    /// The caller may not run this stored function.
    FunctionPermissions { name: String },
    /// A stored function called with too few or too many arguments.
    InvalidArguments { name: String, message: String },
    /// An embedded script could not be run.
    InvalidScript { message: String },
    /// The result of a stored function does not have its declared kind.
    ReturnCoerce { name: String, message: String },
    /// A value does not have the declared kind of its parameter.
    Coerce { message: String },
}

} // verus!
