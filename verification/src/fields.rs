//! Per-field initializer synthesis.
//!
//! For each field, in declaration order, the synthesizer emits either a
//! recursive call into the mock capability or a call to the host default
//! mechanism, as the field's own annotations direct.

use vstd::prelude::*;

use crate::model::{FieldAttr, FieldDecl, FieldDirective, FieldInit, InitExpr};
use crate::scan::{has_default_marker, scan_field_directive};

verus! {

/// The initializer a field's annotation set selects: the host default
/// for a defaulted field, recursion into the mock capability otherwise.
pub open spec fn init_of(attrs: Seq<FieldAttr>) -> InitExpr {
    if has_default_marker(attrs) {
        InitExpr::DefaultCall
    } else {
        InitExpr::MockCall
    }
}

/// The initializer list of a named-field list: field `i`'s name bound to
/// field `i`'s initializer.
pub open spec fn named_inits(fs: Seq<FieldDecl>) -> Seq<FieldInit> {
    Seq::new(fs.len(), |i: int| FieldInit { name: fs[i].name, expr: init_of(fs[i].attrs@) })
}

/// The initializer list of a positional field list: slot `i` holds field
/// `i`'s initializer, unnamed.
pub open spec fn tuple_inits(fs: Seq<FieldDecl>) -> Seq<FieldInit> {
    Seq::new(fs.len(), |i: int| FieldInit { name: None, expr: init_of(fs[i].attrs@) })
}

/// Chooses one field's initializer from its annotations.
pub fn mock_or_default(attrs: &Vec<FieldAttr>) -> (r: InitExpr)
    ensures
        r == init_of(attrs@),
{
    match scan_field_directive(attrs) {
        FieldDirective::UseDefaultValue => InitExpr::DefaultCall,
        FieldDirective::UseMockRecursion => InitExpr::MockCall,
    }
}

/// Synthesizes the initializers of a named-field list, in declaration
/// order.
pub fn named(fields: &Vec<FieldDecl>) -> (r: Vec<FieldInit>)
    requires
        forall|i: int| 0 <= i < fields@.len() ==> (#[trigger] fields@[i].name) is Some,
    ensures
        r@ == named_inits(fields@),
{
    let mut r: Vec<FieldInit> = Vec::new();
    let mut i: usize = 0;
    while i < fields.len()
        invariant
            i <= fields@.len(),
            forall|k: int| 0 <= k < fields@.len() ==> (#[trigger] fields@[k].name) is Some,
            r@ == named_inits(fields@).take(i as int),
        decreases fields@.len() - i,
    {
        let name = match &fields[i].name {
            Some(n) => n.clone(),
            None => vstd::pervasive::unreached(),
        };
        let expr = mock_or_default(&fields[i].attrs);
        r.push(FieldInit { name: Some(name), expr });
        proof {
            assert(r@ =~= named_inits(fields@).take(i as int + 1));
        }
        i += 1;
    }
    proof {
        assert(named_inits(fields@).take(fields@.len() as int) =~= named_inits(fields@));
    }
    r
}

/// Synthesizes the initializers of a positional field list, in
/// declaration order.
pub fn tuple(fields: &Vec<FieldDecl>) -> (r: Vec<FieldInit>)
    ensures
        r@ == tuple_inits(fields@),
{
    let mut r: Vec<FieldInit> = Vec::new();
    let mut i: usize = 0;
    while i < fields.len()
        invariant
            i <= fields@.len(),
            r@ == tuple_inits(fields@).take(i as int),
        decreases fields@.len() - i,
    {
        let expr = mock_or_default(&fields[i].attrs);
        r.push(FieldInit { name: None, expr });
        proof {
            assert(r@ =~= tuple_inits(fields@).take(i as int + 1));
        }
        i += 1;
    }
    proof {
        assert(tuple_inits(fields@).take(fields@.len() as int) =~= tuple_inits(fields@));
    }
    r
}

} // verus!
