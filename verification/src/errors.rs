//! The application-level error taxonomy at the repository boundary.
//!
//! Every storage failure is translated, at a single conversion point, into
//! an [`AppError`] tagged with the high-level use case that was being
//! attempted; the storage driver's native error never crosses the boundary.

use vstd::prelude::*;

verus! {

/// The high-level operation during which a failure occurred. The caller
/// supplies the tag for read operations; write and update operations fix
/// it internally.
#[derive(Debug, Clone, Copy, PartialEq, Eq, Structural)]
pub enum AppUseCase {
    UserRegister,
    UserLogin,
    GetUserProfile,
    UpdateUser,
}

/// The underlying cause of a storage failure, as observed at this boundary.
#[derive(Debug, Clone, Copy, PartialEq, Eq, Structural)]
pub enum DbError {
    /// The statement matched no row.
    RowNotFound,
    /// A uniqueness constraint (email or username) was violated.
    UniqueViolation,
    /// A required column was absent from the fetched row.
    MissingColumn,
    /// Any other driver failure (connectivity, malformed row, ...).
    Other,
}

/// The single error type this layer returns to its callers.
#[derive(Debug, Clone, Copy, PartialEq, Eq, Structural)]
pub enum AppError {
    /// The caller requested an update with no fields to change; raised
    /// synchronously, before any storage access.
    InvalidInput,
    /// A storage failure, wrapped with the use case that was attempted.
    Storage(DbError, AppUseCase),
}

impl AppError {
    /// The single conversion point from a storage failure to the
    /// application's vocabulary.
    pub fn from_db(cause: DbError, usecase: AppUseCase) -> (r: AppError)
        ensures
            r == AppError::Storage(cause, usecase),
    {
        AppError::Storage(cause, usecase)
    }
}

} // verus!
