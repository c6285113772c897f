//! Decoding of response bodies into the typed records.
//!
//! A body is first parsed as JSON, then read field by field. The first field
//! that is absent or ill-typed, in the order in which the record lists its
//! fields, decides the error. Fields that a record does not list are passed
//! over, except in the upstream statistics, which keep them.

use vstd::prelude::*;

pub mod downstream;
pub mod fields;
pub mod identity;
pub mod mapping;
pub mod upstream;

verus! {

/// The model of an outcome: that of its value, or its error.
pub open spec fn outcome_model<T: View, E>(outcome: Result<T, E>) -> Result<T::V, E> {
    match outcome {
        Ok(value) => Ok(value@),
        Err(e) => Err(e),
    }
}

/// Decoding is repeatable: two outcomes of decoding the same bytes are the
/// same error, or values with the same model.
///
/// Every decoder promises `outcome_model(outcome) == expected` with an
/// `expected` that depends on the bytes alone, so this holds of any two of
/// its calls on equal bytes.
pub proof fn lemma_decoding_is_repeatable<T: View, E>(
    first: Result<T, E>,
    second: Result<T, E>,
    expected: Result<T::V, E>,
)
    requires
        outcome_model(first) == expected,
        outcome_model(second) == expected,
    ensures
        outcome_model(first) == outcome_model(second),
{
}

} // verus!
