//! Deterministic mock-value derivation.
//!
//! The crate has two halves.  The first is a pair of small capability
//! traits, [`Mock`] and [`MockOther`], that a type implements when it can
//! produce a fixed, non-random test instance of itself.  The second — the
//! bulk of the crate — is the derivation engine: given a model of a type
//! declaration (its shape, fields, variants and annotations), it
//! synthesizes the body of a `Mock` implementation for that type and can
//! render it as source text.

pub mod fields;
pub mod laws;
pub mod model;
pub mod render;
pub mod scan;
pub mod synth;

use vstd::prelude::*;

verus! {

/// Capability for composable mock data.
///
/// Similar to `Default`, but for tests: `mock` returns a fixed,
/// non-random instance of the implementing type.
pub trait Mock: Sized {
    /// Returns `Self` containing a non-random test value.
    fn mock() -> Self;
}

impl<T: Mock> Mock for Option<T> {
    fn mock() -> (r: Self)
        ensures
            r is Some,
    {
        Some(T::mock())
    }
}

impl Mock for () {
    fn mock() -> Self {
    }
}

/// A second capability like [`Mock`], for a different fixed instance.
pub trait MockOther: Sized {
    /// Returns `Self` containing a non-random test value.
    ///
    /// Normally implemented beside [`Mock`] so that the two instances
    /// differ.
    fn mock_other() -> Self;
}

} // verus!
