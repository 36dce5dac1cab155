//! The port to the backing store: what the domain asks of it, and the failures it may report.

use crate::model::ticker::Ticker;
use crate::model::{Pager, UserInfo};
use vstd::prelude::*;

pub mod pg;

verus! {

/// What a call into a [`StockRepository`] returns.
pub type Result<T> = std::result::Result<T, Error>;

/// The failures that a [`StockRepository`] reports. That something was not found is none of
/// them: a lookup then succeeds with `None`.
#[derive(Debug, Clone, Copy, PartialEq, Eq, Structural)]
pub enum Error {
    /// An account was to be created for an outside identity that an account is linked to
    /// already.
    AlreadyLinked,
    /// Any other failure of the store.
    Unspecified,
}

/// A page of holdings: the tickers with their share counts, and how many entries lie beyond
/// the page.
pub type HoldingsPage = (Vec<(Ticker, u32)>, usize);

/// A page of the stock list: ticker, shares, last price and time of the last trade of each
/// stock, and how many entries lie beyond the page.
pub type StocksPage = (Vec<(Ticker, u32, rust_decimal::Decimal, chrono::NaiveDateTime)>, usize);

/// Everything that the domain asks of a backing store.
///
/// An implementation answers for its own state, which other callers may change between two
/// calls; nothing is promised here about what a call returns.
pub trait StockRepository: Clone + Send + Sync + 'static {
    /// Whether an account with this id exists.
    fn user_exists(&self, id: &uuid::Uuid) -> (r: Result<bool>);

    /// Whether a stock with this ticker exists.
    fn stock_exists(&self, stock: &Ticker) -> (r: Result<bool>);

    /// The account that the chat identity `id` is linked to, if there is one.
    fn discord_to_id(&self, id: i64) -> (r: Result<Option<uuid::Uuid>>);

    /// The account that the game-client identity `id` is linked to, if there is one.
    fn mc_to_id(&self, id: &uuid::Uuid) -> (r: Result<Option<uuid::Uuid>>);

    /// What is known about the account `id`, if it exists.
    fn user_info(&self, id: &uuid::Uuid) -> (r: Result<Option<UserInfo>>);

    /// Creates an account linked to the one identity given, and returns its id. Fails with
    /// [`Error::AlreadyLinked`] if an account is linked to that identity already.
    fn register_user(&self, disc_id: Option<i64>, mc_id: Option<&uuid::Uuid>) -> (r: Result<
        uuid::Uuid,
    >)
        requires
            disc_id.is_some() != mc_id.is_some(),
    ;

    /// One page of what the account `id` holds, in ascending order of ticker, or `None` if
    /// there is no such account.
    fn get_holdings(&self, id: &uuid::Uuid, page: &Pager) -> (r: Result<Option<HoldingsPage>>);

    /// One page of all stocks, in ascending order of ticker.
    fn list_stocks(&self, page: &Pager) -> (r: Result<Option<StocksPage>>);
}

} // verus!
