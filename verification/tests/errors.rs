use rse_core::error::{passed, required, snowflake, Error};
use rse_core::repo;

#[test]
fn a_taken_identity_is_an_account_that_exists() {
    assert_eq!(Error::from(repo::Error::AlreadyLinked), Error::AccountExists);
}

#[test]
fn any_other_failure_of_the_store_is_wrapped() {
    assert_eq!(
        Error::from(repo::Error::Unspecified),
        Error::DatabaseError { source: repo::Error::Unspecified }
    );
}

#[test]
fn what_was_found_is_returned() {
    assert_eq!(required(Ok(Some(17u32))), Ok(17));
}

#[test]
fn what_was_not_found_is_a_failure() {
    assert_eq!(required::<u32>(Ok(None)), Err(Error::UserNotFound));
}

#[test]
fn a_failed_lookup_is_the_failure_of_the_store() {
    assert_eq!(
        required::<u32>(Err(repo::Error::Unspecified)),
        Err(Error::DatabaseError { source: repo::Error::Unspecified })
    );
    assert_eq!(required::<u32>(Err(repo::Error::AlreadyLinked)), Err(Error::AccountExists));
}

#[test]
fn a_result_of_the_store_passes_through() {
    assert_eq!(passed(Ok(3u8)), Ok(3));
    assert_eq!(passed::<u8>(Err(repo::Error::AlreadyLinked)), Err(Error::AccountExists));
    assert_eq!(
        passed::<u8>(Err(repo::Error::Unspecified)),
        Err(Error::DatabaseError { source: repo::Error::Unspecified })
    );
}

#[test]
fn a_malformed_identity_carries_its_number() {
    let e = Error::InvalidSnowflake { flake: u64::MAX };
    assert_eq!(e, Error::InvalidSnowflake { flake: u64::MAX });
    assert_ne!(e, Error::InvalidSnowflake { flake: 1 });
    assert_ne!(e, Error::UserNotFound);
}

#[test]
fn a_chat_identity_that_fits_is_taken_as_it_is() {
    assert_eq!(snowflake(1), Ok(1));
    assert_eq!(snowflake(1_408_958_403_438_444_746), Ok(1_408_958_403_438_444_746));
    assert_eq!(snowflake(i64::MAX as u64), Ok(i64::MAX));
}

#[test]
fn a_chat_identity_that_does_not_fit_is_refused() {
    let above = i64::MAX as u64 + 1;
    assert_eq!(snowflake(above), Err(Error::InvalidSnowflake { flake: above }));
    assert_eq!(snowflake(u64::MAX), Err(Error::InvalidSnowflake { flake: u64::MAX }));
}

#[test]
fn a_chat_identity_of_zero_is_refused() {
    assert_eq!(snowflake(0), Err(Error::InvalidSnowflake { flake: 0 }));
}
