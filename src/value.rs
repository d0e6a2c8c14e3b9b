use vstd::prelude::*;
use crate::text::{push_signed, signed_decimal};

verus! {

/// A nested expression that the surrounding evaluator owns: its canonical
/// text, whether evaluating it may write, and whether it is a constant.
#[derive(Clone, Debug, PartialEq, Eq, Hash)]
pub struct Expr {
    pub text: String,
    pub writes: bool,
    pub fixed: bool,
}

/// An operand of a function call.
#[derive(Clone, Debug, PartialEq, Eq, Hash)]
pub enum Value {
    Absent,
    Null,
    Bool(bool),
    Number(i64),
    Strand(String),
    /// A reference to a bound variable, by name.
    Param(String),
    /// A field path.
    Idiom(String),
    /// A closure value, by its source text.
    Closure(String),
    Block(Expr),
    Subquery(Expr),
    /// A nested function call.
    Function(Expr),
}

/// A kind that admits no absent value.
#[derive(Clone, Copy, Debug, PartialEq, Eq, Hash)]
pub enum Scalar {
    Bool,
    Number,
    Text,
}

/// The declared kind of a parameter or of a return value.
#[derive(Clone, Copy, Debug, PartialEq, Eq, Hash)]
pub enum Kind {
    Any,
    Exactly(Scalar),
    Optional(Scalar),
}

impl Expr {
    pub fn copy(&self) -> (r: Expr)
        ensures
            r == *self,
    {
        Expr { text: self.text.clone(), writes: self.writes, fixed: self.fixed }
    }
}

impl Value {
    /// A value equal to this one.
    pub fn copy(&self) -> (r: Value)
        ensures
            r == *self,
    {
        match self {
            Value::Absent => Value::Absent,
            Value::Null => Value::Null,
            Value::Bool(b) => Value::Bool(*b),
            Value::Number(n) => Value::Number(*n),
            Value::Strand(s) => Value::Strand(s.clone()),
            Value::Param(s) => Value::Param(s.clone()),
            Value::Idiom(s) => Value::Idiom(s.clone()),
            Value::Closure(s) => Value::Closure(s.clone()),
            Value::Block(e) => Value::Block(e.copy()),
            Value::Subquery(e) => Value::Subquery(e.copy()),
            Value::Function(e) => Value::Function(e.copy()),
        }
    }

    pub open spec fn writes(self) -> bool {
        match self {
            Value::Block(e) => e.writes,
            Value::Subquery(e) => e.writes,
            Value::Function(e) => e.writes,
            _ => false,
        }
    }

    /// Whether evaluating this value may write.
    pub fn writeable(&self) -> (r: bool)
        ensures
            r == self.writes(),
    {
        match self {
            Value::Block(e) => e.writes,
            Value::Subquery(e) => e.writes,
            Value::Function(e) => e.writes,
            _ => false,
        }
    }

    pub open spec fn fixed(self) -> bool {
        match self {
            Value::Absent | Value::Null | Value::Bool(_) | Value::Number(_) | Value::Strand(_) => true,
            Value::Function(e) => e.fixed,
            _ => false,
        }
    }

    /// Whether this value is known without evaluating anything.
    pub fn is_static(&self) -> (r: bool)
        ensures
            r == self.fixed(),
    {
        match self {
            Value::Absent | Value::Null | Value::Bool(_) | Value::Number(_) | Value::Strand(_) => true,
            Value::Function(e) => e.fixed,
            _ => false,
        }
    }

    pub open spec fn truthy(self) -> bool {
        match self {
            Value::Bool(b) => b,
            Value::Number(n) => n != 0,
            Value::Strand(s) => s@.len() > 0,
            _ => false,
        }
    }

    /// Whether this value counts as true in a condition.
    pub fn is_truthy(&self) -> (r: bool)
        ensures
            r == self.truthy(),
    {
        match self {
            Value::Bool(b) => *b,
            Value::Number(n) => *n != 0,
            Value::Strand(s) => s.unicode_len() > 0,
            _ => false,
        }
    }

    pub open spec fn kind_name(self) -> Seq<char> {
        match self {
            Value::Absent => "none"@,
            Value::Null => "null"@,
            Value::Bool(_) => "bool"@,
            Value::Number(_) => "number"@,
            Value::Strand(_) => "string"@,
            Value::Param(_) => "param"@,
            Value::Idiom(_) => "idiom"@,
            Value::Closure(_) => "function"@,
            Value::Block(_) => "block"@,
            Value::Subquery(_) => "subquery"@,
            Value::Function(_) => "function"@,
        }
    }

    /// The name of this value's runtime type.
    pub fn kindof(&self) -> (r: &'static str)
        ensures
            r@ == self.kind_name(),
    {
        match self {
            Value::Absent => "none",
            Value::Null => "null",
            Value::Bool(_) => "bool",
            Value::Number(_) => "number",
            Value::Strand(_) => "string",
            Value::Param(_) => "param",
            Value::Idiom(_) => "idiom",
            Value::Closure(_) => "function",
            Value::Block(_) => "block",
            Value::Subquery(_) => "subquery",
            Value::Function(_) => "function",
        }
    }

    /// The canonical text of this value.
    pub open spec fn text(self) -> Seq<char> {
        match self {
            Value::Absent => "NONE"@,
            Value::Null => "NULL"@,
            Value::Bool(b) => if b { "true"@ } else { "false"@ },
            Value::Number(n) => signed_decimal(n as int),
            Value::Strand(s) => "'"@ + s@ + "'"@,
            Value::Param(s) => "$"@ + s@,
            Value::Idiom(s) => s@,
            Value::Closure(s) => s@,
            Value::Block(e) => e.text@,
            Value::Subquery(e) => e.text@,
            Value::Function(e) => e.text@,
        }
    }

    /// Appends the canonical text of this value to `out`.
    pub fn write_to(&self, out: &mut String)
        ensures
            final(out)@ == old(out)@ + self.text(),
    {
        match self {
            Value::Absent => out.append("NONE"),
            Value::Null => out.append("NULL"),
            Value::Bool(b) => if *b { out.append("true") } else { out.append("false") },
            Value::Number(n) => push_signed(out, *n),
            Value::Strand(s) => {
                out.append("'");
                out.append(s.as_str());
                out.append("'");
                assert(final(out)@ =~= old(out)@ + self.text());
            },
            Value::Param(s) => {
                out.append("$");
                out.append(s.as_str());
                assert(final(out)@ =~= old(out)@ + self.text());
            },
            Value::Idiom(s) => out.append(s.as_str()),
            Value::Closure(s) => out.append(s.as_str()),
            Value::Block(e) => out.append(e.text.as_str()),
            Value::Subquery(e) => out.append(e.text.as_str()),
            Value::Function(e) => out.append(e.text.as_str()),
        }
    }
}

} // verus!
