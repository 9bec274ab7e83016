//! What a PostgreSQL repository asks of the types it reads from rows.
use vstd::prelude::*;

use crate::error::RepositoryError;

verus! {

#[verifier::external_type_specification]
#[verifier::external_body]
pub struct ExRow(tokio_postgres::Row);

/// A type that can be read from a result row; implemented by the
/// repository's users for their own record types.
pub trait FromRow: Sized {
    fn from_row(row: &tokio_postgres::Row) -> Result<Self, RepositoryError>;
}

} // verus!
