//! The error taxonomy shared by every decoder in this crate.

use vstd::prelude::*;

verus! {

/// Why a wire object could not be decoded.
///
/// Every decoder returns one of these four kinds and nothing else:
/// an unrecognized variant tag or discriminant, a required field that is
/// absent, an enumeration string outside the known constant set, or a JSON
/// value whose shape does not match the expected one.
#[derive(Clone, Copy, Debug, PartialEq, Eq, Structural)]
pub enum DecodeError {
    /// The tag or discriminant selects no known variant.
    UnknownVariant,
    /// A field the selected variant requires is absent.
    MissingField,
    /// An enumeration field holds a string outside the known constant set.
    InvalidEnumValue,
    /// A field's JSON shape does not match the expected one.
    TypeMismatch,
}

} // verus!
