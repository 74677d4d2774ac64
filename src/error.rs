//! Errors that abort the decoding of one record.
use vstd::prelude::*;

verus! {

/// Why a record could not be decoded.
#[derive(Debug, Clone, PartialEq)]
pub enum DecodeError {
    /// A field present on the wire has the wrong shape; the text says which.
    FieldTypeError(String),
    /// The four forward fields are present in a combination that is neither
    /// a forward from a user nor a forward from a channel.
    InvalidForwardCombination,
    /// An entity of a recognised type lacks the field that type requires;
    /// the text is that field's wire name.
    MissingRequiredField(String),
}

} // verus!
