//! The constructor synthesizer.
//!
//! Given the scanned directives and the shape of the type under
//! derivation, produces the constructor body — a value-construction
//! expression with one initializer per field, in declaration order — and
//! wraps it as the implementation of the mock capability, under the
//! extracted conditional-compilation gate when one is present.
//!
//! Each derivation is a single pure pass: scan, synthesize, emit.  Every
//! failure is one of the diagnostics of
//! [`DeriveError`](crate::model::DeriveError); synthesis either fully
//! succeeds or yields nothing but that diagnostic.

use vstd::prelude::*;

use crate::fields::{named, named_inits, tuple, tuple_inits};
use crate::model::{
    decl_wf, fields_wf, ConstructorBody, ConstructorBodyV, DeriveError, FieldInit, FieldsDecl,
    Gate, Implementation, ImplementationV, TypeDecl, TypeDef, TypeShape, VariantDecl,
};
use crate::scan::{
    first_selected, lemma_selected_unique, scan_gate, scan_gate_spec, scan_variant_selection,
    selected_count,
};

verus! {

/// The structural classification of a field list.
pub open spec fn shape_of(fs: FieldsDecl) -> TypeShape {
    match fs {
        FieldsDecl::Named(_) => TypeShape::Record,
        FieldsDecl::Unnamed(_) => TypeShape::Tuple,
        FieldsDecl::Unit => TypeShape::Unit,
    }
}

/// The initializer list of a field list, whatever its shape.
pub open spec fn inits_of(fs: FieldsDecl) -> Seq<FieldInit> {
    match fs {
        FieldsDecl::Named(fields) => named_inits(fields@),
        FieldsDecl::Unnamed(fields) => tuple_inits(fields@),
        FieldsDecl::Unit => Seq::empty(),
    }
}

/// The constructor body synthesized for a plain data type.
pub open spec fn struct_body(fs: FieldsDecl) -> ConstructorBodyV {
    ConstructorBodyV { variant: None, shape: shape_of(fs), inits: inits_of(fs) }
}

/// The constructor body synthesized for one selected variant: the
/// variant's own shape and fields, qualified by its name.
pub open spec fn variant_body(v: VariantDecl) -> ConstructorBodyV {
    ConstructorBodyV { variant: Some(v.name), shape: shape_of(v.fields), inits: inits_of(v.fields) }
}

/// The constructor body for a tagged union: with exactly one selected
/// variant, that variant's body; otherwise a selection diagnostic.
pub open spec fn enum_body(vs: Seq<VariantDecl>) -> Result<ConstructorBodyV, DeriveError> {
    if selected_count(vs) == 0 {
        Err(DeriveError::NoVariantSelected)
    } else if selected_count(vs) >= 2 {
        Err(DeriveError::AmbiguousVariantSelection)
    } else {
        Ok(variant_body(vs[first_selected(vs)]))
    }
}

/// What the whole derivation yields on a declaration: the predicate scan
/// runs first, then shape dispatch; every diagnostic short-circuits.
pub open spec fn derive_spec(d: TypeDecl) -> Result<ImplementationV, DeriveError> {
    match scan_gate_spec(d.attrs@) {
        Err(e) => Err(e),
        Ok(gate) => match d.def {
            TypeDef::Struct(fs) => Ok(
                ImplementationV { target: d.name, gate, body: struct_body(fs) },
            ),
            TypeDef::Enum(vs) => match enum_body(vs@) {
                Ok(b) => Ok(ImplementationV { target: d.name, gate, body: b }),
                Err(e) => Err(e),
            },
            TypeDef::Union => Err(DeriveError::UnsupportedShape),
        },
    }
}

/// The derivation result, seen at the level of mathematical values.
pub open spec fn result_view(r: Result<Implementation, DeriveError>) -> Result<
    ImplementationV,
    DeriveError,
> {
    match r {
        Ok(im) => Ok(im@),
        Err(e) => Err(e),
    }
}

/// Classifies one field list's shape.
fn classify_shape(fs: &FieldsDecl) -> (r: TypeShape)
    ensures
        r == shape_of(*fs),
{
    match fs {
        FieldsDecl::Named(_) => TypeShape::Record,
        FieldsDecl::Unnamed(_) => TypeShape::Tuple,
        FieldsDecl::Unit => TypeShape::Unit,
    }
}

/// Synthesizes the ordered field-initializer list of one field list.
pub fn synthesize_fields(fs: &FieldsDecl) -> (r: Vec<FieldInit>)
    requires
        fields_wf(*fs),
    ensures
        r@ == inits_of(*fs),
{
    match fs {
        FieldsDecl::Named(fields) => named(fields),
        FieldsDecl::Unnamed(fields) => tuple(fields),
        FieldsDecl::Unit => Vec::new(),
    }
}

/// Synthesizes the constructor body for a plain data type.  This always
/// succeeds: every shape and every mix of field directives has a body.
pub fn derive_struct(fs: &FieldsDecl) -> (r: Result<ConstructorBody, DeriveError>)
    requires
        fields_wf(*fs),
    ensures
        r matches Ok(b) && b@ == struct_body(*fs),
{
    let shape = classify_shape(fs);
    let inits = synthesize_fields(fs);
    Ok(ConstructorBody { variant: None, shape, inits })
}

/// Synthesizes the constructor body for a tagged union: the one
/// selected variant's shape and fields, qualified by its name, or a
/// selection diagnostic when zero or several variants are selected.
pub fn derive_enum(variants: &Vec<VariantDecl>) -> (r: Result<ConstructorBody, DeriveError>)
    requires
        forall|i: int| 0 <= i < variants@.len() ==> fields_wf(#[trigger] variants@[i].fields),
    ensures
        match r {
            Ok(b) => enum_body(variants@) matches Ok(bv) && b@ == bv,
            Err(e) => enum_body(variants@) == Err::<ConstructorBodyV, DeriveError>(e),
        },
{
    let idx = match scan_variant_selection(variants) {
        Ok(i) => i,
        Err(e) => return Err(e),
    };
    proof {
        lemma_selected_unique(variants@);
    }
    let v = &variants[idx];
    let shape = classify_shape(&v.fields);
    let inits = synthesize_fields(&v.fields);
    let name = v.name.clone();
    Ok(ConstructorBody { variant: Some(name), shape, inits })
}

/// Wraps a constructor body as the implementation of the mock
/// capability for the named type, under its gate when one is present.
pub fn synthesize_impl(target: String, gate: Option<Gate>, body: ConstructorBody) -> (r:
    Implementation)
    ensures
        r@ == (ImplementationV { target, gate, body: body@ }),
{
    Implementation { target, gate, body }
}

/// Derives the mock-capability implementation for a whole declaration:
/// the annotation scan first, then shape dispatch, every diagnostic
/// passed on unchanged.
pub fn derive_mock_impl(decl: &TypeDecl) -> (r: Result<Implementation, DeriveError>)
    requires
        decl_wf(*decl),
    ensures
        result_view(r) == derive_spec(*decl),
{
    let gate = match scan_gate(&decl.attrs) {
        Ok(g) => g,
        Err(e) => return Err(e),
    };
    let body = match &decl.def {
        TypeDef::Struct(fs) => match derive_struct(fs) {
            Ok(b) => b,
            Err(e) => return Err(e),
        },
        TypeDef::Enum(vs) => match derive_enum(vs) {
            Ok(b) => b,
            Err(e) => return Err(e),
        },
        TypeDef::Union => {
            return Err(DeriveError::UnsupportedShape);
        },
    };
    Ok(synthesize_impl(decl.name.clone(), gate, body))
}

/// Entry point of the derivation engine.
pub fn derive_mock(decl: &TypeDecl) -> (r: Result<Implementation, DeriveError>)
    requires
        decl_wf(*decl),
    ensures
        result_view(r) == derive_spec(*decl),
{
    derive_mock_impl(decl)
}

} // verus!
