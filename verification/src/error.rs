//! The failures that the service reports, and how the store's results turn into them.

use crate::repo;
use vstd::prelude::*;
use vstd::std_specs::convert::FromSpecImpl;

verus! {

/// What a call into the service returns.
pub type Result<T> = std::result::Result<T, Error>;

/// The failures that the service reports to its callers.
#[derive(Debug, Clone, Copy, PartialEq, Eq, Structural)]
pub enum Error {
    /// A chat identity that does not fit the store's signed 64-bit column.
    InvalidSnowflake { flake: u64 },
    /// A failure of the store that the service cannot handle. The cause is for the log, not
    /// for the end user.
    DatabaseError { source: repo::Error },
    /// An account is linked to the given identity already.
    AccountExists,
    /// No account is linked to the given identity, or none has the given id.
    UserNotFound,
}

impl Error {
    /// The service's failure for a failure of the store: a taken identity becomes
    /// [`Error::AccountExists`], anything else is wrapped as it is.
    pub open spec fn of_store(cause: repo::Error) -> Error {
        match cause {
            repo::Error::AlreadyLinked => Error::AccountExists,
            _ => Error::DatabaseError { source: cause },
        }
    }

    /// Whether some failure of the store turns into this failure.
    pub open spec fn is_store_failure(self) -> bool {
        exists|cause: repo::Error| self == Error::of_store(cause)
    }
}

impl From<repo::Error> for Error {
    fn from(value: repo::Error) -> (e: Error) {
        match value {
            repo::Error::AlreadyLinked => Error::AccountExists,
            _ => Error::DatabaseError { source: value },
        }
    }
}

impl FromSpecImpl<repo::Error> for Error {
    open spec fn obeys_from_spec() -> bool {
        true
    }

    open spec fn from_spec(value: repo::Error) -> Error {
        Error::of_store(value)
    }
}

/// What a chat identity amounts to for the service: the same number as a signed one, where
/// it is not zero and fits; else the failure that names it.
pub open spec fn spec_snowflake(flake: u64) -> Result<i64> {
    if 0 < flake <= i64::MAX {
        Ok(flake as i64)
    } else {
        Err(Error::InvalidSnowflake { flake })
    }
}

/// Validates a chat identity before it reaches the store, whose column is a signed 64-bit
/// number.
pub fn snowflake(flake: u64) -> (r: Result<i64>)
    ensures
        r == spec_snowflake(flake),
{
    if flake == 0 || flake > i64::MAX as u64 {
        Err(Error::InvalidSnowflake { flake })
    } else {
        Ok(flake as i64)
    }
}

/// What the service makes of a lookup in the store, where the caller needs the thing to
/// exist: what was found, [`Error::UserNotFound`] where nothing was, and the store's failure
/// otherwise.
pub open spec fn spec_required<T>(looked_up: repo::Result<Option<T>>) -> Result<T> {
    match looked_up {
        Ok(Some(found)) => Ok(found),
        Ok(None) => Err(Error::UserNotFound),
        Err(cause) => Err(Error::of_store(cause)),
    }
}

/// Turns the result of a lookup into the result of a call that needs the thing to exist.
pub fn required<T>(looked_up: repo::Result<Option<T>>) -> (r: Result<T>)
    ensures
        r == spec_required(looked_up),
{
    match looked_up {
        Ok(Some(found)) => Ok(found),
        Ok(None) => Err(Error::UserNotFound),
        Err(cause) => Err(Error::from(cause)),
    }
}

/// What the service makes of a result of the store that is no lookup: the value as it is, or
/// the store's failure.
pub open spec fn spec_passed<T>(outcome: repo::Result<T>) -> Result<T> {
    match outcome {
        Ok(v) => Ok(v),
        Err(cause) => Err(Error::of_store(cause)),
    }
}

/// Turns a result of the store into a result of the service.
pub fn passed<T>(outcome: repo::Result<T>) -> (r: Result<T>)
    ensures
        r == spec_passed(outcome),
{
    match outcome {
        Ok(v) => Ok(v),
        Err(cause) => Err(Error::from(cause)),
    }
}

/// The one rule by which failures of the store become failures of the service: a taken
/// identity is an account that exists, and the only other failure of the store is wrapped
/// as it is. No failure of the store is taken for a missing account or a malformed identity.
pub proof fn lemma_store_failures(e: Error)
    ensures
        Error::of_store(repo::Error::AlreadyLinked) == Error::AccountExists,
        Error::of_store(repo::Error::Unspecified) == (Error::DatabaseError {
            source: repo::Error::Unspecified,
        }),
        e.is_store_failure() <==> e == Error::AccountExists || e == (Error::DatabaseError {
            source: repo::Error::Unspecified,
        }),
{
    if e == Error::AccountExists {
        assert(e == Error::of_store(repo::Error::AlreadyLinked));
    }
    if e == (Error::DatabaseError { source: repo::Error::Unspecified }) {
        assert(e == Error::of_store(repo::Error::Unspecified));
    }
}

/// A lookup that finds nothing ends in [`Error::UserNotFound`] where the thing is needed,
/// and one that finds something ends in what it found: absence becomes a failure here and
/// nowhere else, and is never passed on as absence.
pub proof fn lemma_absence_is_a_failure<T>(found: T)
    ensures
        spec_required::<T>(Ok(None)) == Err::<T, Error>(Error::UserNotFound),
        spec_required::<T>(Ok(Some(found))) == Ok::<T, Error>(found),
        forall|cause: repo::Error| #[trigger]
            spec_required::<T>(Err(cause)) == Err::<T, Error>(Error::of_store(cause)),
{
}

/// A registration that the store refuses because the identity is taken ends in
/// [`Error::AccountExists`]; one that the store accepts ends in the id that the store gave.
pub proof fn lemma_registration_outcomes<T>(id: T)
    ensures
        spec_passed::<T>(Err(repo::Error::AlreadyLinked)) == Err::<T, Error>(Error::AccountExists),
        spec_passed::<T>(Err(repo::Error::Unspecified)) == Err::<T, Error>(
            Error::DatabaseError { source: repo::Error::Unspecified },
        ),
        spec_passed::<T>(Ok(id)) == Ok::<T, Error>(id),
{
}

} // verus!
