//! The two failure signals of this layer.
//!
//! Parsing rejects malformed source outright; reading a property whose raw
//! hint falls outside the supported value subset yields an explicit
//! unsupported-feature signal naming the property, never a silent guess.

use vstd::prelude::*;
use vstd::string::*;

verus! {

/// Malformed stylesheet source: the whole sheet is rejected and no partial
/// stylesheet is produced.
#[derive(Clone, Copy, PartialEq, Eq, Structural, Debug)]
pub struct StylesheetParseError;

/// A raw hint this layer does not model, for the named property: an
/// unrecognized unit or an unmapped keyword. The caller decides whether this
/// is fatal.
#[derive(Clone, PartialEq, Eq, Debug)]
pub struct UnsupportedFeature {
    pub property: Vec<u8>,
}

impl UnsupportedFeature {
    /// The property name the signal is about.
    pub open spec fn name(&self) -> Seq<u8> {
        self.property@
    }
}

/// The unsupported-feature signal for the named property or value form.
pub fn unimpl(what: &str) -> (r: UnsupportedFeature)
    ensures
        r.name() == what.spec_bytes(),
{
    UnsupportedFeature { property: vstd::slice::slice_to_vec(what.as_bytes()) }
}

/// A fresh copy of an unsupported-feature signal, naming the same property.
pub fn clone_unsupported(e: &UnsupportedFeature) -> (r: UnsupportedFeature)
    ensures
        r.name() == e.name(),
{
    UnsupportedFeature { property: crate::parse::clone_bytes(&e.property) }
}

} // verus!
