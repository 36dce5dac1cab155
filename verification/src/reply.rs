//! What a chat adapter tells its user: how a registration ended, and which words a failure
//! is answered with.

use crate::error::{Error, Result};
use vstd::prelude::*;

verus! {

/// What went wrong while a command ran.
#[derive(Debug, Clone, Copy, PartialEq, Eq, Structural)]
pub enum Fault {
    /// The service failed.
    Service(Error),
    /// The chat platform failed.
    Platform,
    /// A registration failed.
    Registration(Error),
}

/// How a registration ended, as its user sees it.
#[derive(Debug, Clone, Copy)]
pub enum Registration {
    /// An account was created, with this id.
    Created(uuid::Uuid),
    /// The user has an account already.
    Exists,
    /// The registration failed, for this cause.
    Failed(Error),
}

/// How a registration ended: a new account, an account that was there already, or a
/// failure with its cause.
pub open spec fn spec_registration(outcome: Result<uuid::Uuid>) -> Registration {
    match outcome {
        Ok(id) => Registration::Created(id),
        Err(Error::AccountExists) => Registration::Exists,
        Err(cause) => Registration::Failed(cause),
    }
}

/// Judges the result of a registration.
pub fn registration(outcome: Result<uuid::Uuid>) -> (r: Registration)
    ensures
        r == spec_registration(outcome),
{
    match outcome {
        Ok(id) => Registration::Created(id),
        Err(Error::AccountExists) => Registration::Exists,
        Err(cause) => Registration::Failed(cause),
    }
}

/// The words for a failed registration.
pub open spec fn registration_words() -> Seq<char> {
    "Could not register your account, please try again later! If the issue persists, contact support."@
}

/// The words for a user without an account.
pub open spec fn no_account_words() -> Seq<char> {
    "This user does not have an account"@
}

/// The words for every other failure.
pub open spec fn internal_words() -> Seq<char> {
    "Experienced an unexpected internal error, please try again later! If the issue persists, contact support."@
}

/// The words that a failure is answered with. They depend on the kind of failure alone:
/// what the store reported is never among them.
pub open spec fn spec_user_message(fault: Fault) -> Seq<char> {
    match fault {
        Fault::Registration(_) => registration_words(),
        Fault::Service(Error::UserNotFound) => no_account_words(),
        _ => internal_words(),
    }
}

/// Chooses the words that a failure is answered with.
pub fn user_message(fault: &Fault) -> (words: &'static str)
    ensures
        words@ == spec_user_message(*fault),
{
    match fault {
        Fault::Registration(_) => {
            "Could not register your account, please try again later! If the issue persists, contact support."
        },
        Fault::Service(Error::UserNotFound) => "This user does not have an account",
        _ => {
            "Experienced an unexpected internal error, please try again later! If the issue persists, contact support."
        },
    }
}

} // verus!
