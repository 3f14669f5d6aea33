use vstd::prelude::*;

verus! {

/// Why a call failed. Every failure is fatal to the invoking call: the state
/// is observably unchanged afterwards, and whether to retry is entirely the
/// caller's concern.
#[derive(Clone, Copy, Debug, PartialEq, Eq, Structural)]
pub enum Error {
    /// The required principal's proof is missing, or the caller is not in the
    /// permitted set.
    Unauthorized,
    /// The operation addressed an identifier with no stored record.
    NotFound,
    /// A release or refund was attempted on a record that is not `Active`.
    InvalidState,
}

} // verus!
