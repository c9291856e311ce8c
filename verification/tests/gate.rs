//! Tests of the conditional-derive gate scan.

use damock::model::{Capability, ContainerAttr, DeriveError, FieldsDecl, TypeDecl, TypeDef};
use damock::render::render_implementation;
use damock::synth::derive_mock;

fn unit_struct_with_attrs(attrs: Vec<ContainerAttr>) -> TypeDecl {
    TypeDecl {
        name: "Gated".to_string(),
        attrs,
        def: TypeDef::Struct(FieldsDecl::Unit),
    }
}

fn conditional(predicate: &str, capabilities: Vec<Capability>) -> ContainerAttr {
    ContainerAttr::ConditionalDerive {
        predicate: predicate.to_string(),
        capabilities,
    }
}

#[test]
fn qualifying_annotation_gates_the_implementation() {
    let decl = unit_struct_with_attrs(vec![conditional("test", vec![Capability::MockDerive])]);
    let im = derive_mock(&decl).unwrap();
    assert_eq!(im.gate.as_ref().unwrap().predicate, "test");
    assert_eq!(
        render_implementation(&im),
        "#[cfg(test)] impl ::damock::Mock for Gated { fn mock() -> Self { Self } }"
    );
}

#[test]
fn no_annotation_leaves_implementation_unconditional() {
    let decl = unit_struct_with_attrs(Vec::new());
    let im = derive_mock(&decl).unwrap();
    assert!(im.gate.is_none());
}

#[test]
fn annotation_for_other_capability_is_ignored() {
    let decl = unit_struct_with_attrs(vec![
        ContainerAttr::OtherContainerAttr,
        conditional("test", vec![Capability::OtherCapability]),
    ]);
    let im = derive_mock(&decl).unwrap();
    assert!(im.gate.is_none());
}

#[test]
fn first_qualifying_annotation_wins() {
    let decl = unit_struct_with_attrs(vec![
        conditional("feature_a", vec![Capability::OtherCapability]),
        conditional(
            "feature_b",
            vec![Capability::OtherCapability, Capability::MockDerive],
        ),
        conditional("feature_c", vec![Capability::MockDerive]),
    ]);
    let im = derive_mock(&decl).unwrap();
    assert_eq!(im.gate.as_ref().unwrap().predicate, "feature_b");
}

#[test]
fn malformed_annotation_is_a_diagnostic() {
    let decl = unit_struct_with_attrs(vec![ContainerAttr::MalformedConditionalDerive]);
    let err = derive_mock(&decl).unwrap_err();
    assert_eq!(err, DeriveError::MalformedGateAnnotation);
    assert_eq!(
        err.message(),
        "malformed conditional-derive annotation: expected a predicate followed by a capability list"
    );
}

#[test]
fn malformed_after_qualifying_match_is_ignored() {
    let decl = unit_struct_with_attrs(vec![
        conditional("unix", vec![Capability::MockDerive]),
        ContainerAttr::MalformedConditionalDerive,
    ]);
    let im = derive_mock(&decl).unwrap();
    assert_eq!(im.gate.as_ref().unwrap().predicate, "unix");
}

#[test]
fn malformed_before_qualifying_match_fails() {
    let decl = unit_struct_with_attrs(vec![
        ContainerAttr::MalformedConditionalDerive,
        conditional("unix", vec![Capability::MockDerive]),
    ]);
    let err = derive_mock(&decl).unwrap_err();
    assert_eq!(err, DeriveError::MalformedGateAnnotation);
}
