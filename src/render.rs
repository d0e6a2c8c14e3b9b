use vstd::prelude::*;
use crate::function::Function;
use crate::value::Value;

verus! {

/// The texts of a list of values, separated by commas.
pub open spec fn list_text(vs: Seq<Value>) -> Seq<char>
    decreases vs.len(),
{
    if vs.len() == 0 {
        Seq::empty()
    } else if vs.len() == 1 {
        vs[0].text()
    } else {
        list_text(vs.drop_last()) + ","@ + vs.last().text()
    }
}

/// Whether a closure target must be put in parentheses before a call:
/// only a closure literal binds less tightly than a postfix call.
pub open spec fn needs_parens(v: Value) -> bool {
    v is Closure
}

impl Function {
    /// The canonical text of this call.
    pub open spec fn text(self) -> Seq<char> {
        match self {
            Function::Normal(n, a) => n@ + "("@ + list_text(a@) + ")"@,
            Function::Custom(n, a) => "fn::"@ + n@ + "("@ + list_text(a@) + ")"@,
            Function::Script(s, a) => "function("@ + list_text(a@) + ") {"@ + s@ + "}"@,
            Function::Anonymous(p, a, _) => if needs_parens(p) {
                "("@ + p.text() + ")"@ + "("@ + list_text(a@) + ")"@
            } else {
                p.text() + "("@ + list_text(a@) + ")"@
            },
        }
    }

    /// The canonical text of this call, as written in a query.
    pub fn render(&self) -> (r: String)
        ensures
            r@ == self.text(),
    {
        let mut out = String::new();
        match self {
            Function::Normal(n, a) => {
                out.append(n.as_str());
                write_args(&mut out, a);
            },
            Function::Custom(n, a) => {
                out.append("fn::");
                out.append(n.as_str());
                write_args(&mut out, a);
            },
            Function::Script(s, a) => {
                out.append("function");
                write_args(&mut out, a);
                out.append(" {");
                out.append(s.as_str());
                out.append("}");
                proof {
                    reveal_strlit("function");
                    reveal_strlit("function(");
                    reveal_strlit(" {");
                    reveal_strlit(") {");
                    reveal_strlit("(");
                    reveal_strlit(")");
                }
            },
            Function::Anonymous(p, a, _) => {
                if p.is_closure() {
                    out.append("(");
                    p.write_to(&mut out);
                    out.append(")");
                } else {
                    p.write_to(&mut out);
                }
                write_args(&mut out, a);
            },
        }
        assert(out@ =~= self.text());
        out
    }
}

impl Value {
    /// Whether this value is a closure.
    pub fn is_closure(&self) -> (r: bool)
        ensures
            r == (self is Closure),
    {
        matches!(self, Value::Closure(_))
    }
}

/// Appends `(`, the values separated by commas, and `)` to `out`.
fn write_args(out: &mut String, a: &Vec<Value>)
    ensures
        final(out)@ == old(out)@ + "("@ + list_text(a@) + ")"@,
{
    out.append("(");
    let ghost start = out@;
    let mut i: usize = 0;
    while i < a.len()
        invariant
            0 <= i <= a.len(),
            out@ == start + list_text(a@.take(i as int)),
        decreases a.len() - i,
    {
        if i > 0 {
            out.append(",");
        }
        a[i].write_to(out);
        proof {
            let t = a@.take(i as int + 1);
            assert(t.drop_last() =~= a@.take(i as int));
            if i == 0 {
                assert(t.len() == 1);
            }
        }
        i = i + 1;
        assert(out@ =~= start + list_text(a@.take(i as int)));
    }
    assert(a@.take(a.len() as int) =~= a@);
    out.append(")");
    assert(final(out)@ =~= old(out)@ + "("@ + list_text(a@) + ")"@);
}

} // verus!
