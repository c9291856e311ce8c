//! The annotation scanner.
//!
//! Converts raw declaration annotations into the three directive values
//! the synthesizer consumes: the per-field initialization directive, the
//! single selected variant of a tagged union, and the optional
//! conditional-compilation gate of the whole implementation.

use vstd::prelude::*;

use crate::model::{
    Capability, ContainerAttr, DeriveError, FieldAttr, FieldDirective, Gate, VariantAttr,
    VariantDecl,
};

verus! {

/// A field annotation list carries the use-default marker.
pub open spec fn has_default_marker(attrs: Seq<FieldAttr>) -> bool {
    exists|i: int| 0 <= i < attrs.len() && attrs[i] is MockDefaultMarker
}

/// The directive a field's annotation set denotes: the plain default
/// when the use-default marker appears anywhere in it, recursion into
/// the mock capability otherwise.
pub open spec fn directive_of(attrs: Seq<FieldAttr>) -> FieldDirective {
    if has_default_marker(attrs) {
        FieldDirective::UseDefaultValue
    } else {
        FieldDirective::UseMockRecursion
    }
}

/// Scans one field's annotation set for the use-default marker.
/// Repeated markers are equivalent to one; no other annotation matters.
pub fn scan_field_directive(attrs: &Vec<FieldAttr>) -> (r: FieldDirective)
    ensures
        r == directive_of(attrs@),
{
    let mut i: usize = 0;
    while i < attrs.len()
        invariant
            i <= attrs@.len(),
            forall|j: int| 0 <= j < i ==> !(attrs@[j] is MockDefaultMarker),
        decreases attrs@.len() - i,
    {
        if attrs[i] == FieldAttr::MockDefaultMarker {
            return FieldDirective::UseDefaultValue;
        }
        i += 1;
    }
    FieldDirective::UseMockRecursion
}

/// A variant annotation list carries the selection marker.
pub open spec fn has_mock_marker(attrs: Seq<VariantAttr>) -> bool {
    exists|i: int| 0 <= i < attrs.len() && attrs[i] is MockMarker
}

/// The variant carries the selection marker.
pub open spec fn variant_selected(v: VariantDecl) -> bool {
    has_mock_marker(v.attrs@)
}

/// How many variants of the list carry the selection marker.
pub open spec fn selected_count(vs: Seq<VariantDecl>) -> nat
    decreases vs.len(),
{
    if vs.len() == 0 {
        0
    } else {
        (if variant_selected(vs[0]) {
            1nat
        } else {
            0nat
        }) + selected_count(vs.drop_first())
    }
}

/// The position of the first selected variant (meaningful only when one
/// exists).
pub open spec fn first_selected(vs: Seq<VariantDecl>) -> int
    decreases vs.len(),
{
    if vs.len() == 0 {
        0
    } else if variant_selected(vs[0]) {
        0
    } else {
        1 + first_selected(vs.drop_first())
    }
}

/// A list without selected variants counts zero, and conversely.
proof fn lemma_count_zero(vs: Seq<VariantDecl>)
    ensures
        selected_count(vs) == 0 <==> forall|j: int| 0 <= j < vs.len() ==> !variant_selected(vs[j]),
    decreases vs.len(),
{
    if vs.len() > 0 {
        lemma_count_zero(vs.drop_first());
        if selected_count(vs) == 0 {
            assert forall|j: int| 0 <= j < vs.len() implies !variant_selected(vs[j]) by {
                if j > 0 {
                    assert(vs.drop_first()[j - 1] == vs[j]);
                }
            }
        }
        if forall|j: int| 0 <= j < vs.len() ==> !variant_selected(vs[j]) {
            assert forall|k: int| 0 <= k < vs.drop_first().len() implies !variant_selected(
                vs.drop_first()[k],
            ) by {
                assert(vs.drop_first()[k] == vs[k + 1]);
            }
            assert(selected_count(vs) == 0);
        }
    }
}

/// With exactly one marker in the list, the first selected position is
/// in range, selected, and the only selected one.
pub proof fn lemma_selected_unique(vs: Seq<VariantDecl>)
    requires
        selected_count(vs) == 1,
    ensures
        0 <= first_selected(vs) < vs.len(),
        variant_selected(vs[first_selected(vs)]),
        forall|j: int| 0 <= j < vs.len() && variant_selected(vs[j]) ==> j == first_selected(vs),
    decreases vs.len(),
{
    if variant_selected(vs[0]) {
        lemma_count_zero(vs.drop_first());
        assert forall|j: int| 0 <= j < vs.len() && variant_selected(vs[j]) implies j
            == first_selected(vs) by {
            if j > 0 {
                assert(vs.drop_first()[j - 1] == vs[j]);
            }
        }
    } else {
        lemma_selected_unique(vs.drop_first());
        assert(vs[first_selected(vs)] == vs.drop_first()[first_selected(vs.drop_first())]);
        assert forall|j: int| 0 <= j < vs.len() && variant_selected(vs[j]) implies j
            == first_selected(vs) by {
            if j > 0 {
                assert(vs.drop_first()[j - 1] == vs[j]);
            }
        }
    }
}

/// Scans one variant's annotation set for the selection marker.
fn variant_has_marker(attrs: &Vec<VariantAttr>) -> (r: bool)
    ensures
        r == has_mock_marker(attrs@),
{
    let mut i: usize = 0;
    while i < attrs.len()
        invariant
            i <= attrs@.len(),
            forall|j: int| 0 <= j < i ==> !(attrs@[j] is MockMarker),
        decreases attrs@.len() - i,
    {
        if attrs[i] == VariantAttr::MockMarker {
            return true;
        }
        i += 1;
    }
    false
}

/// Scans a tagged union's variant list for the one selected variant and
/// returns its position.  Zero markers and several markers are the two
/// selection diagnostics; exactly one marker yields its position.
pub fn scan_variant_selection(variants: &Vec<VariantDecl>) -> (r: Result<usize, DeriveError>)
    ensures
        match r {
            Ok(i) => selected_count(variants@) == 1 && i == first_selected(variants@),
            Err(e) => match e {
                DeriveError::NoVariantSelected => selected_count(variants@) == 0,
                DeriveError::AmbiguousVariantSelection => selected_count(variants@) >= 2,
                _ => false,
            },
        },
{
    let ghost vs = variants@;
    proof {
        assert(vs.skip(0) =~= vs);
    }
    let mut i: usize = 0;
    let mut found: Option<usize> = None;
    while i < variants.len()
        invariant
            i <= vs.len(),
            vs == variants@,
            match found {
                None => selected_count(vs) == selected_count(vs.skip(i as int))
                    && forall|j: int| 0 <= j < i ==> !variant_selected(vs[j]),
                Some(f) => f < i && variant_selected(vs[f as int])
                    && (forall|j: int| 0 <= j < f ==> !variant_selected(vs[j]))
                    && selected_count(vs) == 1 + selected_count(vs.skip(i as int)),
            },
        decreases vs.len() - i,
    {
        let marked = variant_has_marker(&variants[i].attrs);
        proof {
            assert(vs.skip(i as int).drop_first() =~= vs.skip(i as int + 1));
            assert(vs.skip(i as int)[0] == vs[i as int]);
        }
        if marked {
            match found {
                None => {
                    found = Some(i);
                }
                Some(_) => {
                    proof {
                        assert(selected_count(vs.skip(i as int)) >= 1);
                    }
                    return Err(DeriveError::AmbiguousVariantSelection);
                }
            }
        }
        i += 1;
    }
    proof {
        assert(vs.skip(vs.len() as int) =~= Seq::<VariantDecl>::empty());
    }
    match found {
        None => Err(DeriveError::NoVariantSelected),
        Some(f) => {
            proof {
                lemma_selected_unique(vs);
            }
            Ok(f)
        }
    }
}

/// A container annotation requests the mock capability: it is a
/// well-formed conditional-derive annotation whose capability list names
/// mock derivation.
pub open spec fn requests_mock(a: ContainerAttr) -> bool {
    a matches ContainerAttr::ConditionalDerive { capabilities, .. } && exists|i: int|
        0 <= i < capabilities@.len() && capabilities@[i] is MockDerive
}

/// A container annotation matters to the predicate scan at all: either it is
/// a malformed conditional-derive annotation, or it requests the mock
/// capability.
pub open spec fn gate_relevant(a: ContainerAttr) -> bool {
    a is MalformedConditionalDerive || requests_mock(a)
}

/// What the predicate scan yields on a container annotation list, walking it
/// in declaration order: the first conditional-derive annotation that
/// requests the mock capability contributes its predicate, verbatim; a
/// malformed conditional-derive annotation seen before any such match is
/// a diagnostic; with neither, there is no gate.
pub open spec fn scan_gate_spec(attrs: Seq<ContainerAttr>) -> Result<Option<Gate>, DeriveError>
    decreases attrs.len(),
{
    if attrs.len() == 0 {
        Ok(None)
    } else if attrs[0] is MalformedConditionalDerive {
        Err(DeriveError::MalformedGateAnnotation)
    } else if requests_mock(attrs[0]) {
        Ok(Some(Gate { predicate: attrs[0]->ConditionalDerive_predicate }))
    } else {
        scan_gate_spec(attrs.drop_first())
    }
}

/// Scans a capability list for the mock-derivation capability.
fn caps_request_mock(caps: &Vec<Capability>) -> (r: bool)
    ensures
        r == exists|i: int| 0 <= i < caps@.len() && caps@[i] is MockDerive,
{
    let mut i: usize = 0;
    while i < caps.len()
        invariant
            i <= caps@.len(),
            forall|j: int| 0 <= j < i ==> !(caps@[j] is MockDerive),
        decreases caps@.len() - i,
    {
        if caps[i] == Capability::MockDerive {
            return true;
        }
        i += 1;
    }
    false
}

/// Scans the container's annotations for the conditional-derive gate.
/// The first annotation that requests the mock capability wins; later
/// ones are ignored even if also applicable.
pub fn scan_gate(attrs: &Vec<ContainerAttr>) -> (r: Result<Option<Gate>, DeriveError>)
    ensures
        r == scan_gate_spec(attrs@),
{
    let ghost cs = attrs@;
    proof {
        assert(cs.skip(0) =~= cs);
    }
    let mut i: usize = 0;
    while i < attrs.len()
        invariant
            i <= cs.len(),
            cs == attrs@,
            scan_gate_spec(cs) == scan_gate_spec(cs.skip(i as int)),
        decreases cs.len() - i,
    {
        proof {
            assert(cs.skip(i as int).drop_first() =~= cs.skip(i as int + 1));
            assert(cs.skip(i as int)[0] == cs[i as int]);
        }
        match &attrs[i] {
            ContainerAttr::MalformedConditionalDerive => {
                return Err(DeriveError::MalformedGateAnnotation);
            }
            ContainerAttr::ConditionalDerive { predicate, capabilities } => {
                if caps_request_mock(capabilities) {
                    return Ok(Some(Gate { predicate: predicate.clone() }));
                }
            }
            ContainerAttr::OtherContainerAttr => {}
        }
        i += 1;
    }
    proof {
        assert(cs.skip(cs.len() as int) =~= Seq::<ContainerAttr>::empty());
    }
    Ok(None)
}

} // verus!
