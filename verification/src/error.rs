//! The failure kinds a repository operation can signal.

use vstd::prelude::*;

verus! {

/// A typed repository failure.
///
/// `NotFound` is a slug lookup that matched zero rows. `PgError` carries the
/// description of a statement the database rejected or failed; `PoolError`
/// carries the description of a failed connection acquisition. The process
/// edge renders the driver's error values to these descriptions before the
/// library sees them.
#[derive(Debug)]
pub enum ApiError {
    NotFound,
    PgError(String),
    PoolError(String),
}

} // verus!
