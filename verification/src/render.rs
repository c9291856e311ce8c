//! Rendering the synthesized implementation as source text.
//!
//! The derivation engine's output is source code: an implementation of
//! the mock capability whose single operation builds the constructed
//! value.  This module turns the structured output into that text, one
//! field initializer after the other, in declaration order.

use vstd::prelude::*;
use vstd::string::StringExecFns;

use crate::model::{ConstructorBody, ConstructorBodyV, FieldInit, Implementation, ImplementationV, InitExpr, TypeShape};

verus! {

/// The text of one initializer expression.
pub open spec fn render_expr(e: InitExpr) -> Seq<char> {
    match e {
        InitExpr::MockCall => "::damock::Mock::mock()"@,
        InitExpr::DefaultCall => "Default::default()"@,
    }
}

/// The text of one field initializer: named fields bind their name,
/// positional ones stand bare.
pub open spec fn render_init(f: FieldInit) -> Seq<char> {
    match f.name {
        Some(n) => n@ + ": "@ + render_expr(f.expr),
        None => render_expr(f.expr),
    }
}

/// The comma-separated initializer list, in order.
pub open spec fn render_inits(inits: Seq<FieldInit>) -> Seq<char>
    decreases inits.len(),
{
    if inits.len() == 0 {
        Seq::empty()
    } else if inits.len() == 1 {
        render_init(inits[0])
    } else {
        render_inits(inits.drop_last()) + ", "@ + render_init(inits.last())
    }
}

/// The head of the constructed value: the bare type for a struct body,
/// the qualified variant for a tagged union's body.
pub open spec fn render_head(variant: Option<String>) -> Seq<char> {
    match variant {
        Some(v) => "Self::"@ + v@,
        None => "Self"@,
    }
}

/// The text of the whole constructor body: a braced literal for a
/// record, a parenthesized one for a tuple, a bare value for a unit.
pub open spec fn render_body(b: ConstructorBodyV) -> Seq<char> {
    let head = render_head(b.variant);
    match b.shape {
        TypeShape::Record => if b.inits.len() == 0 {
            head + " {}"@
        } else {
            head + " { "@ + render_inits(b.inits) + " }"@
        },
        TypeShape::Tuple => head + "("@ + render_inits(b.inits) + ")"@,
        TypeShape::Unit => head,
    }
}

/// The text of the whole generated implementation, prefixed by its
/// conditional-compilation gate when one is present.
pub open spec fn render_impl(im: ImplementationV) -> Seq<char> {
    let stem = "impl ::damock::Mock for "@ + im.target@ + " { fn mock() -> Self { "@
        + render_body(im.body) + " } }"@;
    match im.gate {
        Some(g) => "#[cfg("@ + g.predicate@ + ")] "@ + stem,
        None => stem,
    }
}

/// Appends one field initializer's text.
fn render_init_into(f: &FieldInit, out: &mut String)
    ensures
        final(out)@ == old(out)@ + render_init(*f),
{
    match &f.name {
        Some(n) => {
            out.append(n.as_str());
            out.append(": ");
        },
        None => {},
    }
    match f.expr {
        InitExpr::MockCall => out.append("::damock::Mock::mock()"),
        InitExpr::DefaultCall => out.append("Default::default()"),
    }
}

/// One step of the initializer list's text, at position `i`.
proof fn lemma_render_inits_step(inits: Seq<FieldInit>, i: int)
    requires
        0 <= i < inits.len(),
    ensures
        render_inits(inits.take(i + 1)) == if i == 0 {
            render_init(inits[0])
        } else {
            render_inits(inits.take(i)) + ", "@ + render_init(inits[i])
        },
{
    assert(inits.take(i + 1).drop_last() =~= inits.take(i));
    assert(inits.take(i + 1).last() == inits[i]);
}

/// Appends the comma-separated initializer list, in order.
fn render_inits_into(inits: &Vec<FieldInit>, out: &mut String)
    ensures
        final(out)@ == old(out)@ + render_inits(inits@),
{
    proof {
        assert(inits@.take(0) =~= Seq::<FieldInit>::empty());
    }
    let mut i: usize = 0;
    while i < inits.len()
        invariant
            i <= inits@.len(),
            out@ == old(out)@ + render_inits(inits@.take(i as int)),
        decreases inits@.len() - i,
    {
        if i > 0 {
            out.append(", ");
        }
        render_init_into(&inits[i], out);
        proof {
            lemma_render_inits_step(inits@, i as int);
        }
        i += 1;
    }
    proof {
        assert(inits@.take(inits@.len() as int) =~= inits@);
    }
}

/// Renders the constructor body.
pub fn render_constructor(b: &ConstructorBody) -> (r: String)
    ensures
        r@ == render_body(b@),
{
    let mut out = String::new();
    match &b.variant {
        Some(v) => {
            out.append("Self::");
            out.append(v.as_str());
        },
        None => out.append("Self"),
    }
    match b.shape {
        TypeShape::Record => {
            if b.inits.len() == 0 {
                out.append(" {}");
            } else {
                out.append(" { ");
                render_inits_into(&b.inits, &mut out);
                out.append(" }");
            }
        },
        TypeShape::Tuple => {
            out.append("(");
            render_inits_into(&b.inits, &mut out);
            out.append(")");
        },
        TypeShape::Unit => {},
    }
    out
}

/// Renders the whole generated implementation as one line of source
/// text.
pub fn render_implementation(im: &Implementation) -> (r: String)
    ensures
        r@ == render_impl(im@),
{
    let mut out = String::new();
    match &im.gate {
        Some(g) => {
            out.append("#[cfg(");
            out.append(g.predicate.as_str());
            out.append(")] ");
        },
        None => {},
    }
    out.append("impl ::damock::Mock for ");
    out.append(im.target.as_str());
    out.append(" { fn mock() -> Self { ");
    let body = render_constructor(&im.body);
    out.append(body.as_str());
    out.append(" } }");
    out
}

} // verus!
