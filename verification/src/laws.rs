//! Laws of the derivation engine, each proved once and for all inputs.

use vstd::prelude::*;

use crate::fields::{init_of, named_inits, tuple_inits};
use crate::model::{
    ContainerAttr, DeriveError, FieldAttr, FieldDecl, FieldDirective, Gate, ImplementationV,
    InitExpr, TypeDecl,
};
use crate::scan::{
    directive_of, first_selected, gate_relevant, lemma_selected_unique, requests_mock,
    scan_gate_spec, selected_count, variant_selected,
};
use crate::synth::{derive_spec, struct_body, variant_body};

verus! {

/// Law: initializer synthesis is total and positional.  The list has
/// exactly one initializer per field; the initializer at position `i`
/// comes from the field at position `i`, never reordered, added or
/// dropped; named shapes bind each field's own name and positional
/// shapes bind none.
pub proof fn lemma_initializers_follow_declaration(fs: Seq<FieldDecl>)
    ensures
        named_inits(fs).len() == fs.len(),
        tuple_inits(fs).len() == fs.len(),
        forall|i: int| 0 <= i < fs.len() ==> (#[trigger] named_inits(fs)[i]).name == fs[i].name,
        forall|i: int|
            0 <= i < fs.len() ==> (#[trigger] named_inits(fs)[i]).expr == init_of(fs[i].attrs@),
        forall|i: int| 0 <= i < fs.len() ==> (#[trigger] tuple_inits(fs)[i]).name is None,
        forall|i: int|
            0 <= i < fs.len() ==> (#[trigger] tuple_inits(fs)[i]).expr == init_of(fs[i].attrs@),
{
}

/// Law: the strategy choice is the field directive, exactly — a field's
/// initializer is the host default if and only if its annotations give
/// it the use-default directive, and a recursive mock call if and only
/// if they leave it on mock recursion.
pub proof fn lemma_strategy_is_directive(attrs: Seq<FieldAttr>)
    ensures
        init_of(attrs) == InitExpr::DefaultCall <==> directive_of(attrs)
            == FieldDirective::UseDefaultValue,
        init_of(attrs) == InitExpr::MockCall <==> directive_of(attrs)
            == FieldDirective::UseMockRecursion,
{
}

/// Law: struct derivation is total — for every declaration of a plain
/// data type whose gate scan succeeds, whatever its shape and whatever
/// mix of directives its fields carry, derivation succeeds, and the
/// result implements the capability for the declared type with the
/// shape's own aggregate body.
pub proof fn lemma_struct_derivation_total(d: TypeDecl)
    requires
        d.def is Struct,
        scan_gate_spec(d.attrs@) is Ok,
    ensures
        derive_spec(d) is Ok,
        derive_spec(d)->Ok_0.body == struct_body(d.def->Struct_0),
        derive_spec(d)->Ok_0.target == d.name,
        derive_spec(d)->Ok_0.gate == scan_gate_spec(d.attrs@)->Ok_0,
{
}

/// Law: the tagged-union constructor builds the statically selected
/// variant — with exactly one selection marker, derivation succeeds,
/// the body names that variant, and its shape and initializers come
/// from that variant's fields alone, so every other variant is ignored.
pub proof fn lemma_selected_variant_wins(d: TypeDecl)
    requires
        d.def is Enum,
        scan_gate_spec(d.attrs@) is Ok,
        selected_count(d.def->Enum_0@) == 1,
    ensures
        derive_spec(d) is Ok,
        variant_selected(d.def->Enum_0@[first_selected(d.def->Enum_0@)]),
        derive_spec(d)->Ok_0.body == variant_body(
            d.def->Enum_0@[first_selected(d.def->Enum_0@)],
        ),
        derive_spec(d)->Ok_0.body.variant == Some(
            d.def->Enum_0@[first_selected(d.def->Enum_0@)].name,
        ),
{
    lemma_selected_unique(d.def->Enum_0@);
}

/// Law: the exactly-one-selection invariant — deriving on a tagged
/// union whose gate scan succeeds fails with `NoVariantSelected` exactly
/// when no variant carries the selection marker, with
/// `AmbiguousVariantSelection` exactly when several do, and succeeds
/// exactly when one does.
pub proof fn lemma_exactly_one_selection(d: TypeDecl)
    requires
        d.def is Enum,
        scan_gate_spec(d.attrs@) is Ok,
    ensures
        derive_spec(d) == Err::<ImplementationV, DeriveError>(DeriveError::NoVariantSelected)
            <==> selected_count(d.def->Enum_0@) == 0,
        derive_spec(d) == Err::<ImplementationV, DeriveError>(
            DeriveError::AmbiguousVariantSelection,
        ) <==> selected_count(d.def->Enum_0@) >= 2,
        derive_spec(d) is Ok <==> selected_count(d.def->Enum_0@) == 1,
{
}

/// Law: with no relevant container annotation — none malformed, none
/// requesting the mock capability — the predicate scan yields no gate, so
/// the implementation is unconditionally present.
pub proof fn lemma_no_gate(attrs: Seq<ContainerAttr>)
    requires
        forall|j: int| 0 <= j < attrs.len() ==> !gate_relevant(attrs[j]),
    ensures
        scan_gate_spec(attrs) == Ok::<Option<Gate>, DeriveError>(None),
    decreases attrs.len(),
{
    if attrs.len() > 0 {
        assert forall|j: int| 0 <= j < attrs.drop_first().len() implies !gate_relevant(
            attrs.drop_first()[j],
        ) by {
            assert(attrs.drop_first()[j] == attrs[j + 1]);
        }
        lemma_no_gate(attrs.drop_first());
    }
}

/// Law: the first relevant container annotation decides the outcome — a
/// qualifying conditional-derive annotation contributes its predicate
/// verbatim, a malformed one is the diagnostic, and every later
/// annotation is ignored either way.
pub proof fn lemma_first_gate_wins(attrs: Seq<ContainerAttr>, i: int)
    requires
        0 <= i < attrs.len(),
        gate_relevant(attrs[i]),
        forall|j: int| 0 <= j < i ==> !gate_relevant(attrs[j]),
    ensures
        attrs[i] is MalformedConditionalDerive ==> scan_gate_spec(attrs) == Err::<
            Option<Gate>,
            DeriveError,
        >(DeriveError::MalformedGateAnnotation),
        requests_mock(attrs[i]) ==> scan_gate_spec(attrs) == Ok::<Option<Gate>, DeriveError>(
            Some(Gate { predicate: attrs[i]->ConditionalDerive_predicate }),
        ),
    decreases i,
{
    if i > 0 {
        assert(attrs.drop_first()[i - 1] == attrs[i]);
        assert forall|j: int| 0 <= j < i - 1 implies !gate_relevant(attrs.drop_first()[j]) by {
            assert(attrs.drop_first()[j] == attrs[j + 1]);
        }
        lemma_first_gate_wins(attrs.drop_first(), i - 1);
    }
}

/// Law: a successful derivation carries its gate through unchanged —
/// the generated implementation is conditioned on exactly the predicate
/// the scan extracted, and on nothing else.
pub proof fn lemma_gate_carried(d: TypeDecl)
    requires
        derive_spec(d) is Ok,
    ensures
        scan_gate_spec(d.attrs@) is Ok,
        derive_spec(d)->Ok_0.gate == scan_gate_spec(d.attrs@)->Ok_0,
{
}

} // verus!
