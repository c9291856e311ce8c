//! Scenario tests for the derivation engine: one declaration in, one
//! synthesized implementation (or one diagnostic) out.

use damock::model::{
    DeriveError, FieldAttr, FieldDecl, FieldsDecl, InitExpr, TypeDecl, TypeDef, TypeShape,
    VariantAttr, VariantDecl,
};
use damock::render::render_implementation;
use damock::synth::derive_mock;

fn named_field(name: &str, attrs: Vec<FieldAttr>) -> FieldDecl {
    FieldDecl {
        name: Some(name.to_string()),
        attrs,
    }
}

fn positional_field(attrs: Vec<FieldAttr>) -> FieldDecl {
    FieldDecl { name: None, attrs }
}

fn plain_struct(name: &str, fields: FieldsDecl) -> TypeDecl {
    TypeDecl {
        name: name.to_string(),
        attrs: Vec::new(),
        def: TypeDef::Struct(fields),
    }
}

fn plain_enum(name: &str, variants: Vec<VariantDecl>) -> TypeDecl {
    TypeDecl {
        name: name.to_string(),
        attrs: Vec::new(),
        def: TypeDef::Enum(variants),
    }
}

#[test]
fn point_record_derives_mock_per_field() {
    let decl = plain_struct(
        "Point",
        FieldsDecl::Named(vec![
            named_field("x", Vec::new()),
            named_field("y", Vec::new()),
        ]),
    );
    let im = derive_mock(&decl).unwrap();
    assert_eq!(im.target, "Point");
    assert!(im.gate.is_none());
    assert!(im.body.variant.is_none());
    assert_eq!(im.body.shape, TypeShape::Record);
    assert_eq!(im.body.inits.len(), 2);
    assert_eq!(im.body.inits[0].name.as_deref(), Some("x"));
    assert_eq!(im.body.inits[0].expr, InitExpr::MockCall);
    assert_eq!(im.body.inits[1].name.as_deref(), Some("y"));
    assert_eq!(im.body.inits[1].expr, InitExpr::MockCall);
    assert_eq!(
        render_implementation(&im),
        "impl ::damock::Mock for Point { fn mock() -> Self { Self { x: ::damock::Mock::mock(), y: ::damock::Mock::mock() } } }"
    );
}

#[test]
fn defaulted_tuple_field_bypasses_recursion() {
    let decl = plain_struct(
        "Wrapped",
        FieldsDecl::Unnamed(vec![
            positional_field(vec![FieldAttr::MockDefaultMarker]),
            positional_field(Vec::new()),
        ]),
    );
    let im = derive_mock(&decl).unwrap();
    assert_eq!(im.body.shape, TypeShape::Tuple);
    assert_eq!(im.body.inits.len(), 2);
    assert!(im.body.inits[0].name.is_none());
    assert_eq!(im.body.inits[0].expr, InitExpr::DefaultCall);
    assert_eq!(im.body.inits[1].expr, InitExpr::MockCall);
    assert_eq!(
        render_implementation(&im),
        "impl ::damock::Mock for Wrapped { fn mock() -> Self { Self(Default::default(), ::damock::Mock::mock()) } }"
    );
}

#[test]
fn unit_struct_derives_bare_value() {
    let decl = plain_struct("Marker", FieldsDecl::Unit);
    let im = derive_mock(&decl).unwrap();
    assert_eq!(im.body.shape, TypeShape::Unit);
    assert!(im.body.inits.is_empty());
    assert_eq!(
        render_implementation(&im),
        "impl ::damock::Mock for Marker { fn mock() -> Self { Self } }"
    );
}

#[test]
fn empty_record_derives_empty_literal() {
    let decl = plain_struct("Empty", FieldsDecl::Named(Vec::new()));
    let im = derive_mock(&decl).unwrap();
    assert_eq!(im.body.shape, TypeShape::Record);
    assert!(im.body.inits.is_empty());
    assert_eq!(
        render_implementation(&im),
        "impl ::damock::Mock for Empty { fn mock() -> Self { Self {} } }"
    );
}

#[test]
fn initializer_order_matches_declaration_order() {
    let decl = plain_struct(
        "Wide",
        FieldsDecl::Named(vec![
            named_field("a", Vec::new()),
            named_field("b", vec![FieldAttr::MockDefaultMarker]),
            named_field("c", Vec::new()),
            named_field("d", vec![FieldAttr::MockDefaultMarker]),
        ]),
    );
    let im = derive_mock(&decl).unwrap();
    let names: Vec<&str> = im
        .body
        .inits
        .iter()
        .map(|i| i.name.as_deref().unwrap())
        .collect();
    assert_eq!(names, ["a", "b", "c", "d"]);
    let exprs: Vec<InitExpr> = im.body.inits.iter().map(|i| i.expr).collect();
    assert_eq!(
        exprs,
        [
            InitExpr::MockCall,
            InitExpr::DefaultCall,
            InitExpr::MockCall,
            InitExpr::DefaultCall,
        ]
    );
    assert_eq!(
        render_implementation(&im),
        "impl ::damock::Mock for Wide { fn mock() -> Self { Self { a: ::damock::Mock::mock(), b: Default::default(), c: ::damock::Mock::mock(), d: Default::default() } } }"
    );
}

#[test]
fn repeated_default_markers_are_one() {
    let decl = plain_struct(
        "Twice",
        FieldsDecl::Unnamed(vec![positional_field(vec![
            FieldAttr::MockDefaultMarker,
            FieldAttr::MockDefaultMarker,
        ])]),
    );
    let im = derive_mock(&decl).unwrap();
    assert_eq!(im.body.inits[0].expr, InitExpr::DefaultCall);
}

#[test]
fn marker_among_other_annotations_counts() {
    let decl = plain_struct(
        "Mixed",
        FieldsDecl::Unnamed(vec![positional_field(vec![
            FieldAttr::OtherFieldAttr,
            FieldAttr::MockDefaultMarker,
            FieldAttr::OtherFieldAttr,
        ])]),
    );
    let im = derive_mock(&decl).unwrap();
    assert_eq!(im.body.inits[0].expr, InitExpr::DefaultCall);
}

#[test]
fn selected_variant_always_built() {
    let decl = plain_enum(
        "Shape",
        vec![
            VariantDecl {
                name: "Circle".to_string(),
                attrs: Vec::new(),
                fields: FieldsDecl::Named(vec![named_field("r", Vec::new())]),
            },
            VariantDecl {
                name: "Square".to_string(),
                attrs: vec![VariantAttr::MockMarker],
                fields: FieldsDecl::Named(vec![named_field("side", Vec::new())]),
            },
        ],
    );
    let im = derive_mock(&decl).unwrap();
    assert_eq!(im.body.variant.as_deref(), Some("Square"));
    assert_eq!(im.body.shape, TypeShape::Record);
    assert_eq!(im.body.inits.len(), 1);
    assert_eq!(im.body.inits[0].name.as_deref(), Some("side"));
    assert_eq!(
        render_implementation(&im),
        "impl ::damock::Mock for Shape { fn mock() -> Self { Self::Square { side: ::damock::Mock::mock() } } }"
    );
    let again = derive_mock(&decl).unwrap();
    assert_eq!(again, im);
}

#[test]
fn tuple_variant_derives_positional_literal() {
    let decl = plain_enum(
        "Holder",
        vec![VariantDecl {
            name: "Pair".to_string(),
            attrs: vec![VariantAttr::MockMarker],
            fields: FieldsDecl::Unnamed(vec![
                positional_field(Vec::new()),
                positional_field(vec![FieldAttr::MockDefaultMarker]),
            ]),
        }],
    );
    let im = derive_mock(&decl).unwrap();
    assert_eq!(
        render_implementation(&im),
        "impl ::damock::Mock for Holder { fn mock() -> Self { Self::Pair(::damock::Mock::mock(), Default::default()) } }"
    );
}

#[test]
fn unit_variant_derives_bare_variant() {
    let decl = plain_enum(
        "Toggle",
        vec![
            VariantDecl {
                name: "On".to_string(),
                attrs: Vec::new(),
                fields: FieldsDecl::Unit,
            },
            VariantDecl {
                name: "Off".to_string(),
                attrs: vec![VariantAttr::MockMarker],
                fields: FieldsDecl::Unit,
            },
        ],
    );
    let im = derive_mock(&decl).unwrap();
    assert_eq!(
        render_implementation(&im),
        "impl ::damock::Mock for Toggle { fn mock() -> Self { Self::Off } }"
    );
}

#[test]
fn zero_selections_rejected() {
    let decl = plain_enum(
        "Silent",
        vec![
            VariantDecl {
                name: "A".to_string(),
                attrs: Vec::new(),
                fields: FieldsDecl::Unit,
            },
            VariantDecl {
                name: "B".to_string(),
                attrs: vec![VariantAttr::OtherVariantAttr],
                fields: FieldsDecl::Unit,
            },
        ],
    );
    let err = derive_mock(&decl).unwrap_err();
    assert_eq!(err, DeriveError::NoVariantSelected);
    assert_eq!(
        err.message(),
        "no #[mock] attribute found in any of the listed variants"
    );
}

#[test]
fn two_selections_rejected_as_ambiguous() {
    let decl = plain_enum(
        "Torn",
        vec![
            VariantDecl {
                name: "A".to_string(),
                attrs: vec![VariantAttr::MockMarker],
                fields: FieldsDecl::Unit,
            },
            VariantDecl {
                name: "B".to_string(),
                attrs: vec![VariantAttr::MockMarker],
                fields: FieldsDecl::Unit,
            },
        ],
    );
    let err = derive_mock(&decl).unwrap_err();
    assert_eq!(err, DeriveError::AmbiguousVariantSelection);
    assert_eq!(
        err.message(),
        "expected only one #[mock] enum variant attribute, unable to infer which one to use."
    );
}

#[test]
fn overlapping_storage_union_rejected() {
    let decl = TypeDecl {
        name: "Raw".to_string(),
        attrs: Vec::new(),
        def: TypeDef::Union,
    };
    let err = derive_mock(&decl).unwrap_err();
    assert_eq!(err, DeriveError::UnsupportedShape);
    assert_eq!(err.message(), "union types not supported");
}
