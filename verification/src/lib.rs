//! Core of a small stock exchange: accounts linked to outside identities, tickers, and
//! paginated views of what an account holds.

use crate::error::{passed, required, spec_passed, spec_required, Error, Result};
use crate::model::ticker::Ticker;
use crate::model::{Pager, UserInfo};
use crate::repo::StockRepository;
use vstd::prelude::*;

pub mod error;
pub mod model;
pub mod paging;
pub mod reply;
pub mod repo;

verus! {

/// The service that callers talk to. It owns nothing but its store and is cheap to clone.
#[derive(Debug, Clone)]
pub struct Service<R: StockRepository> {
    repo: R,
}

impl<R: StockRepository> Service<R> {
    /// The store behind the service, for contracts.
    pub closed spec fn store(&self) -> R {
        self.repo
    }

    /// Creates a service on top of `repo`.
    pub fn new(repo: R) -> (s: Self)
        ensures
            s.store() == repo,
    {
        Self { repo }
    }

    /// The account that the chat identity `id` is linked to.
    ///
    /// The store is asked for this very identity, and its answer decides: the account that
    /// it found, [`Error::UserNotFound`] if it knows no such link, and the store's failure
    /// if the lookup itself fails.
    pub fn disc_to_id(&self, id: i64) -> (r: Result<uuid::Uuid>)
        ensures
            exists|looked_up: repo::Result<Option<uuid::Uuid>>|
                call_ensures(R::discord_to_id, (&self.store(), id), looked_up) && r
                    == spec_required(looked_up),
            r matches Err(e) ==> e == Error::UserNotFound || e.is_store_failure(),
    {
        let looked_up = self.repo.discord_to_id(id);
        required(looked_up)
    }

    /// The account that the game-client identity `id` is linked to.
    ///
    /// The store is asked for this very identity, and its answer decides: the account that
    /// it found, [`Error::UserNotFound`] if it knows no such link, and the store's failure
    /// if the lookup itself fails.
    pub fn mc_to_id(&self, id: &uuid::Uuid) -> (r: Result<uuid::Uuid>)
        ensures
            exists|looked_up: repo::Result<Option<uuid::Uuid>>|
                call_ensures(R::mc_to_id, (&self.store(), id), looked_up) && r == spec_required(
                    looked_up,
                ),
            r matches Err(e) ==> e == Error::UserNotFound || e.is_store_failure(),
    {
        let looked_up = self.repo.mc_to_id(id);
        required(looked_up)
    }

    /// Creates an account for one outside identity and returns its id.
    ///
    /// Exactly one of the two identities is given, and it reaches the store as it is. The
    /// store's answer decides: the id that it gave, [`Error::AccountExists`] if it reports
    /// the identity as taken, and [`Error::DatabaseError`] on any other failure of the store;
    /// it is never reported that something was not found.
    pub fn register_account(&self, disc_id: Option<i64>, mc_id: Option<&uuid::Uuid>) -> (r:
        Result<uuid::Uuid>)
        requires
            disc_id.is_some() != mc_id.is_some(),
        ensures
            exists|outcome: repo::Result<uuid::Uuid>|
                call_ensures(R::register_user, (&self.store(), disc_id, mc_id), outcome) && r
                    == spec_passed(outcome),
            r matches Err(e) ==> e.is_store_failure(),
    {
        let outcome = self.repo.register_user(disc_id, mc_id);
        passed(outcome)
    }

    /// What is known about the account `id`.
    ///
    /// The store is asked for this very account, and its answer decides: what it knows,
    /// [`Error::UserNotFound`] if it has no such account, and the store's failure if the
    /// lookup itself fails.
    pub fn get_account_info(&self, id: &uuid::Uuid) -> (r: Result<UserInfo>)
        ensures
            exists|looked_up: repo::Result<Option<UserInfo>>|
                call_ensures(R::user_info, (&self.store(), id), looked_up) && r == spec_required(
                    looked_up,
                ),
            r matches Err(e) ==> e == Error::UserNotFound || e.is_store_failure(),
    {
        let looked_up = self.repo.user_info(id);
        required(looked_up)
    }

    /// One page of what the account `id` holds, with the number of entries beyond the page.
    ///
    /// The store is asked for this very account and pager, and its answer decides: the page
    /// as the store returns it, nothing added, left out or moved;
    /// [`Error::UserNotFound`] if the store has no such account, whatever the pager says;
    /// and the store's failure if the lookup itself fails.
    pub fn get_holdings(&self, id: &uuid::Uuid, page: &Pager) -> (r: Result<
        (Vec<(Ticker, u32)>, usize),
    >)
        ensures
            exists|looked_up: repo::Result<Option<(Vec<(Ticker, u32)>, usize)>>|
                call_ensures(R::get_holdings, (&self.store(), id, page), looked_up) && r
                    == spec_required(looked_up),
            r matches Err(e) ==> e == Error::UserNotFound || e.is_store_failure(),
    {
        let looked_up = self.repo.get_holdings(id, page);
        required(looked_up)
    }
}

} // verus!
