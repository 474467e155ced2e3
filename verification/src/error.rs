//! The errors of a fetch.

use tokio_postgres::Error as PgError;
use vstd::prelude::*;
use vstd::std_specs::convert::FromSpecImpl;

verus! {

/// Makes `tokio_postgres::Error`, the error type of the PostgreSQL driver,
/// known to the verifier as a type without content. Nothing is claimed of
/// what such a value holds: it is only carried through.
#[verifier::external_type_specification]
#[verifier::external_body]
pub struct ExDriverError(PgError);

/// Why a fetch gave no contact.
#[derive(Debug)]
pub enum Error {
    /// The database or the connection to it failed; the driver's error, as
    /// the driver reported it.
    Db(PgError),
    /// The fetch itself went through and the answer was of no use; the
    /// message says why.
    Intern(String),
}

impl From<PgError> for Error {
    fn from(err: PgError) -> (error: Error) {
        Error::Db(err)
    }
}

impl FromSpecImpl<PgError> for Error {
    open spec fn obeys_from_spec() -> bool {
        true
    }

    open spec fn from_spec(err: PgError) -> Error {
        Error::Db(err)
    }
}

impl From<String> for Error {
    fn from(err: String) -> (error: Error) {
        Error::Intern(err)
    }
}

impl FromSpecImpl<String> for Error {
    open spec fn obeys_from_spec() -> bool {
        true
    }

    open spec fn from_spec(err: String) -> Error {
        Error::Intern(err)
    }
}

} // verus!
