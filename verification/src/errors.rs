//! Failure taxonomy of the bookkeeping core.

use vstd::prelude::*;

verus! {

/// Every way a core operation can fail.
///
/// - `InvalidEnumValue`: a client-supplied category/type string does not
///   match the closed vocabulary; never coerced to a default.
/// - `MissingRequiredFilter`: an aggregation was requested without a
///   mandatory filter field.
/// - `RowMappingError`: storage returned data that cannot be reconstructed
///   into a typed entity; fatal for the whole call, no partial results.
/// - `StorageError`: a connectivity or constraint failure reported by the
///   storage collaborator, propagated opaquely.
/// - `NotFound`: a requested user has no matching row; distinct from
///   `StorageError` so callers can answer "not found" rather than "server
///   error".
#[derive(Debug, Clone)]
pub enum WalletError {
    InvalidEnumValue { field: String, value: String },
    MissingRequiredFilter { field: String },
    RowMappingError { field: String, raw_value: String },
    StorageError { message: String },
    NotFound,
}

impl WalletError {
    /// Whether this error reports a client-supplied value outside the closed
    /// vocabulary; used by callers that map errors onto transport codes.
    pub fn is_invalid_enum_value(&self) -> (r: bool)
        ensures
            r == (self is InvalidEnumValue),
    {
        match self {
            WalletError::InvalidEnumValue { .. } => true,
            _ => false,
        }
    }
}

} // verus!
