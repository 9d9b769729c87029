//! The error taxonomy shared by every action: one kind per failure
//! domain, returned to the caller unchanged.

use vstd::prelude::*;

verus! {

/// Every failure an action can report. `TodoNotFoundError` stands for a
/// missing (or not owned) resource, `DieselCrudError` collapses all
/// store-layer faults into one kind, the two token kinds cover issuance
/// and validation, and `BadCreds` is the unified login failure.
#[derive(Debug, Clone, Copy, PartialEq, Eq, Structural)]
pub enum TodosError {
    TodoNotFoundError,
    JwtTokenCreationError,
    DieselCrudError,
    JwtTokenDecodeError,
    BadCreds,
}

impl TodosError {
    /// A human-readable description of the error kind.
    pub fn message(&self) -> (r: &'static str)
        ensures
            *self is TodoNotFoundError ==> r@ == "todo not found"@,
            *self is DieselCrudError ==> r@ == "database operations failed"@,
            *self is JwtTokenCreationError ==> r@ == "JWT token creation failed"@,
            *self is JwtTokenDecodeError ==> r@ == "JWT token decoding failed"@,
            *self is BadCreds ==> r@ == "bad credentials"@,
    {
        match self {
            TodosError::TodoNotFoundError => "todo not found",
            TodosError::DieselCrudError => "database operations failed",
            TodosError::JwtTokenCreationError => "JWT token creation failed",
            TodosError::JwtTokenDecodeError => "JWT token decoding failed",
            TodosError::BadCreds => "bad credentials",
        }
    }
}

} // verus!
