//! Decision logic of the database-backed store. The store itself performs
//! its work over a connection pool and lives with the I/O code; every
//! decision it takes between statements is a plain function on plain
//! values, stated and verified here.
//!
//! The flow of each operation:
//! - `create(name)` first selects the live row with that name, then feeds
//!   what it found to [`create_precheck`]; only on `Ok` does it insert.
//! - `delete(id)` executes one delete statement and feeds the affected-row
//!   count to [`delete_outcome`].
//! - `list_all` selects the rows ordered by id ascending and returns them
//!   as they come; there is no decision to take.
//!
//! Any statement that fails outright is classified as
//! `RepositoryError::Unexpected` with the driver's diagnostic text.

use vstd::prelude::*;

use crate::repository::{Label, RepositoryError};

verus! {

/// The check-then-act step of `create`: given the live label found under
/// the requested name (if any), either reject the creation as a duplicate
/// — carrying the conflicting id, with no insert attempted — or clear it
/// to proceed.
pub fn create_precheck(existing: Option<Label>) -> (r: Result<(), RepositoryError>)
    ensures
        (match existing {
            Some(l) => r == Err::<(), RepositoryError>(RepositoryError::Duplicate(l.id)),
            None => r == Ok::<(), RepositoryError>(()),
        }),
{
    match existing {
        Some(l) => Err(RepositoryError::Duplicate(l.id)),
        None => Ok(()),
    }
}

/// The outcome of `delete(id)`, decided from the count of rows the delete
/// statement affected: no row means the id was not live, which is the
/// failure `NotFound(id)`; otherwise the delete succeeded.
pub fn delete_outcome(id: i32, rows_affected: u64) -> (r: Result<(), RepositoryError>)
    ensures
        rows_affected == 0 ==> r == Err::<(), RepositoryError>(RepositoryError::NotFound(id)),
        rows_affected > 0 ==> r == Ok::<(), RepositoryError>(()),
{
    if rows_affected == 0 {
        Err(RepositoryError::NotFound(id))
    } else {
        Ok(())
    }
}

} // verus!
