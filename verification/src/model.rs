//! The data model of the derivation engine.
//!
//! The input side mirrors what a type declaration exposes: its name, its
//! kind (record, tagged union, or overlapping-storage union), its ordered
//! fields or variants, and the annotations attached at container, variant
//! and field granularity.  The output side is the synthesized result: a
//! constructor body (which aggregate literal to build, and one initializer
//! per field, in declaration order) wrapped as an implementation of the
//! mock capability, optionally under a conditional-compilation gate.

use vstd::prelude::*;

verus! {

/// An annotation attached to a single field.
#[derive(Clone, Copy, PartialEq, Eq, Structural, Debug)]
pub enum FieldAttr {
    /// The "initialize with a plain default value" marker.
    MockDefaultMarker,
    /// Any other field annotation; the engine reads nothing from it.
    OtherFieldAttr,
}

/// An annotation attached to one variant of a tagged union.
#[derive(Clone, Copy, PartialEq, Eq, Structural, Debug)]
pub enum VariantAttr {
    /// The "build this variant" selection marker.
    MockMarker,
    /// Any other variant annotation; the engine reads nothing from it.
    OtherVariantAttr,
}

/// A capability named inside a conditional-derive annotation's list.
#[derive(Clone, Copy, PartialEq, Eq, Structural, Debug)]
pub enum Capability {
    /// The mock-derivation capability itself.
    MockDerive,
    /// Any other derivation target.
    OtherCapability,
}

/// An annotation attached to the type declaration itself.
#[derive(Clone, PartialEq, Eq, Debug)]
pub enum ContainerAttr {
    /// "Derive the listed capabilities only under this predicate."  The
    /// predicate text is carried verbatim and never inspected.
    ConditionalDerive { predicate: String, capabilities: Vec<Capability> },
    /// A conditional-derive annotation whose argument list could not be
    /// parsed as a predicate followed by a capability list.
    MalformedConditionalDerive,
    /// Any other container annotation; the engine reads nothing from it.
    OtherContainerAttr,
}

/// One field of a record, tuple or variant shape.
#[derive(Clone, PartialEq, Eq, Debug)]
pub struct FieldDecl {
    /// The field's name: present for named fields, absent for positional
    /// ones.
    pub name: Option<String>,
    /// The field's annotations, in declaration order.
    pub attrs: Vec<FieldAttr>,
}

/// The ordered field list of a struct or of one enum variant.
#[derive(Clone, PartialEq, Eq, Debug)]
pub enum FieldsDecl {
    /// Named fields, accessed by name.
    Named(Vec<FieldDecl>),
    /// Positional fields, accessed by position.
    Unnamed(Vec<FieldDecl>),
    /// No fields at all.
    Unit,
}

/// One variant of a tagged union.
#[derive(Clone, PartialEq, Eq, Debug)]
pub struct VariantDecl {
    pub name: String,
    /// The variant's annotations, in declaration order.
    pub attrs: Vec<VariantAttr>,
    pub fields: FieldsDecl,
}

/// The definition part of a declaration: what kind of type it is.
#[derive(Clone, PartialEq, Eq, Debug)]
pub enum TypeDef {
    /// A plain data type with one field list.
    Struct(FieldsDecl),
    /// A tagged union with an ordered variant list.
    Enum(Vec<VariantDecl>),
    /// An overlapping-storage union; never supported.
    Union,
}

/// A full type declaration, as handed to the derivation engine.
#[derive(Clone, PartialEq, Eq, Debug)]
pub struct TypeDecl {
    pub name: String,
    /// The container-level annotations, in declaration order.
    pub attrs: Vec<ContainerAttr>,
    pub def: TypeDef,
}

/// The structural classification of a field list.
#[derive(Clone, Copy, PartialEq, Eq, Structural, Debug)]
pub enum TypeShape {
    /// Named fields: a braced aggregate literal.
    Record,
    /// Positional fields: a parenthesized aggregate literal.
    Tuple,
    /// No fields: a bare value.
    Unit,
}

/// Per field, which initialization strategy the constructor uses.
#[derive(Clone, Copy, PartialEq, Eq, Structural, Debug)]
pub enum FieldDirective {
    /// Recurse into the field type's own mock capability (the default).
    UseMockRecursion,
    /// Use the host language's plain default value.
    UseDefaultValue,
}

/// The initializer expression synthesized for one field.
#[derive(Clone, Copy, PartialEq, Eq, Structural, Debug)]
pub enum InitExpr {
    /// A recursive call into the mock capability.
    MockCall,
    /// A call to the host default mechanism.
    DefaultCall,
}

/// One synthesized field initializer: a strategy, bound to a field name
/// for record shapes and to its position for tuple shapes.
#[derive(Clone, PartialEq, Eq, Debug)]
pub struct FieldInit {
    pub name: Option<String>,
    pub expr: InitExpr,
}

/// The synthesized constructor body: which aggregate literal to build.
#[derive(Clone, PartialEq, Eq, Debug)]
pub struct ConstructorBody {
    /// `Some(v)`: the body builds variant `v` of a tagged union;
    /// `None`: it builds a plain struct.
    pub variant: Option<String>,
    pub shape: TypeShape,
    /// The field initializers, in declaration order.
    pub inits: Vec<FieldInit>,
}

/// A conditional-compilation gate, carried verbatim from the annotation
/// it was extracted from.
#[derive(Clone, PartialEq, Eq, Debug)]
pub struct Gate {
    pub predicate: String,
}

/// The synthesized implementation of the mock capability for one type.
#[derive(Clone, PartialEq, Eq, Debug)]
pub struct Implementation {
    pub target: String,
    /// When present, the whole implementation exists only under the
    /// gate's predicate.
    pub gate: Option<Gate>,
    pub body: ConstructorBody,
}

/// The derivation diagnostics.  Every failure of the engine is one of
/// these; none of them ever manifests at runtime of the generated code.
#[derive(Clone, Copy, PartialEq, Eq, Structural, Debug)]
pub enum DeriveError {
    /// The type's storage kind cannot be mocked.
    UnsupportedShape,
    /// A tagged union carries no selection marker on any variant.
    NoVariantSelected,
    /// A tagged union carries selection markers on several variants.
    AmbiguousVariantSelection,
    /// A conditional-derive annotation's arguments could not be parsed.
    MalformedGateAnnotation,
}

/// The mathematical value of a [`ConstructorBody`].
pub struct ConstructorBodyV {
    pub variant: Option<String>,
    pub shape: TypeShape,
    pub inits: Seq<FieldInit>,
}

/// The mathematical value of an [`Implementation`].
pub struct ImplementationV {
    pub target: String,
    pub gate: Option<Gate>,
    pub body: ConstructorBodyV,
}

impl View for ConstructorBody {
    type V = ConstructorBodyV;

    open spec fn view(&self) -> ConstructorBodyV {
        ConstructorBodyV { variant: self.variant, shape: self.shape, inits: self.inits@ }
    }
}

impl View for Implementation {
    type V = ImplementationV;

    open spec fn view(&self) -> ImplementationV {
        ImplementationV { target: self.target, gate: self.gate, body: self.body@ }
    }
}

/// Every field of a named-field list carries a name.  The host exposes
/// named fields with their names, so the engine requires this of its
/// callers rather than recovering from its violation.
pub open spec fn fields_wf(fs: FieldsDecl) -> bool {
    match fs {
        FieldsDecl::Named(fields) => forall|i: int|
            0 <= i < fields@.len() ==> (#[trigger] fields@[i].name) is Some,
        FieldsDecl::Unnamed(_) => true,
        FieldsDecl::Unit => true,
    }
}

/// Well-formedness of a whole declaration: every named-field list of it,
/// whether the struct's own or one of a variant, names its fields.
pub open spec fn decl_wf(d: TypeDecl) -> bool {
    match d.def {
        TypeDef::Struct(fs) => fields_wf(fs),
        TypeDef::Enum(variants) => forall|i: int|
            0 <= i < variants@.len() ==> fields_wf(#[trigger] variants@[i].fields),
        TypeDef::Union => true,
    }
}

impl DeriveError {
    /// The diagnostic value of the error.
    pub open spec fn message_spec(self) -> Seq<char> {
        match self {
            DeriveError::UnsupportedShape => "union types not supported"@,
            DeriveError::NoVariantSelected => "no #[mock] attribute found in any of the listed variants"@,
            DeriveError::AmbiguousVariantSelection => "expected only one #[mock] enum variant attribute, unable to infer which one to use."@,
            DeriveError::MalformedGateAnnotation => "malformed conditional-derive annotation: expected a predicate followed by a capability list"@,
        }
    }

    /// The diagnostic text naming the violated rule.
    pub fn message(&self) -> (r: &'static str)
        ensures
            r@ == self.message_spec(),
    {
        match self {
            DeriveError::UnsupportedShape => "union types not supported",
            DeriveError::NoVariantSelected => "no #[mock] attribute found in any of the listed variants",
            DeriveError::AmbiguousVariantSelection => "expected only one #[mock] enum variant attribute, unable to infer which one to use.",
            DeriveError::MalformedGateAnnotation => "malformed conditional-derive annotation: expected a predicate followed by a capability list",
        }
    }
}

} // verus!
