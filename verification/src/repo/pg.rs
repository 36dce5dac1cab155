//! What a Postgres port decides once its queries have returned: which failure of a query
//! is which failure of the store, and which rows are which domain values.

use crate::model::ticker::{symbol_before, ParseError, Ticker};
use crate::model::{Pager, UserInfo};
use crate::repo::{Error, HoldingsPage, Result};
use vstd::prelude::*;
use vstd::utf8::encode_utf8;

verus! {

/// What the port needs to know of a failed query.
#[derive(Debug, Clone, Copy, PartialEq, Eq, Structural)]
pub enum QueryFailure {
    /// The query was to return a row and returned none.
    RowNotFound,
    /// The database refused the statement because a unique or primary key was violated.
    UniqueViolation,
    /// Anything else: no connection, another constraint, a value that could not be decoded.
    Other,
}

/// The store's answer to a plain query: the value, or [`Error::Unspecified`] whatever went
/// wrong.
pub fn answered<T>(fetched: std::result::Result<T, QueryFailure>) -> (r: Result<T>)
    ensures
        match fetched {
            Ok(v) => r == Ok::<T, Error>(v),
            Err(_) => r == Err::<T, Error>(Error::Unspecified),
        },
{
    match fetched {
        Ok(v) => Ok(v),
        Err(_) => Err(Error::Unspecified),
    }
}

/// The store's answer to an existence probe: the flag that the query returned, `false` if it
/// returned none, or [`Error::Unspecified`] if it failed.
pub fn exists_answer(fetched: std::result::Result<Option<bool>, QueryFailure>) -> (r: Result<bool>)
    ensures
        match fetched {
            Ok(Some(flag)) => r == Ok::<bool, Error>(flag),
            Ok(None) => r == Ok::<bool, Error>(false),
            Err(_) => r == Err::<bool, Error>(Error::Unspecified),
        },
{
    match fetched {
        Ok(Some(flag)) => Ok(flag),
        Ok(None) => Ok(false),
        Err(_) => Err(Error::Unspecified),
    }
}

/// The failure of the store that a failed insert of an account amounts to:
/// [`Error::AlreadyLinked`] if the unique constraint on the identities was violated,
/// [`Error::Unspecified`] otherwise.
pub open spec fn spec_insert_failure(failure: QueryFailure) -> Error {
    match failure {
        QueryFailure::UniqueViolation => Error::AlreadyLinked,
        _ => Error::Unspecified,
    }
}

/// Classifies the failure of an insert of an account.
pub fn insert_failure(failure: QueryFailure) -> (e: Error)
    ensures
        e == spec_insert_failure(failure),
{
    match failure {
        QueryFailure::UniqueViolation => Error::AlreadyLinked,
        _ => Error::Unspecified,
    }
}

/// The store's answer to the insert of a new account: its id, or what [`insert_failure`]
/// makes of the failure.
pub fn insert_answer(fetched: std::result::Result<uuid::Uuid, QueryFailure>) -> (r: Result<
    uuid::Uuid,
>)
    ensures
        match fetched {
            Ok(id) => r == Ok::<uuid::Uuid, Error>(id),
            Err(failure) => r == Err::<uuid::Uuid, Error>(spec_insert_failure(failure)),
        },
{
    match fetched {
        Ok(id) => Ok(id),
        Err(failure) => Err(insert_failure(failure)),
    }
}

/// A row of the accounts table.
pub struct UserRow {
    /// The internal id of the account.
    pub user_id: uuid::Uuid,
    /// The balance of the account.
    pub balance: rust_decimal::Decimal,
    /// When the account was created, in UTC.
    pub created_at: chrono::NaiveDateTime,
    /// The linked game-client identity.
    pub mc_id: Option<uuid::Uuid>,
    /// The linked chat identity, as the signed column holds it.
    pub disc_id: Option<i64>,
}

impl UserRow {
    /// Whether the row can be read as an account: a chat identity, if present, is positive.
    pub open spec fn readable(&self) -> bool {
        self.disc_id matches Some(v) ==> v > 0
    }

    /// The account that a readable row stands for.
    pub open spec fn info(&self) -> UserInfo {
        UserInfo {
            id: self.user_id,
            balance: self.balance,
            created_at: self.created_at,
            mc_id: self.mc_id,
            disc_id: match self.disc_id {
                Some(v) => Some(v as u64),
                None => None,
            },
        }
    }

    /// Reads the row as an account. A chat identity that is zero or negative cannot be read:
    /// the row then counts as a failure of the store.
    pub fn into_info(self) -> (r: Result<UserInfo>)
        ensures
            self.readable() ==> r == Ok::<UserInfo, Error>(self.info()),
            !self.readable() ==> r == Err::<UserInfo, Error>(Error::Unspecified),
    {
        let disc_id = match self.disc_id {
            Some(v) => {
                if v <= 0 {
                    return Err(Error::Unspecified);
                }
                Some(v as u64)
            },
            None => None,
        };
        Ok(
            UserInfo {
                id: self.user_id,
                balance: self.balance,
                created_at: self.created_at,
                mc_id: self.mc_id,
                disc_id,
            },
        )
    }
}

/// The store's answer to the lookup of an account: the account of the row that was found,
/// `None` if none was, [`Error::Unspecified`] if the query failed or the row cannot be read.
pub fn user_answer(fetched: std::result::Result<Option<UserRow>, QueryFailure>) -> (r: Result<
    Option<UserInfo>,
>)
    ensures
        match fetched {
            Ok(Some(row)) => if row.readable() {
                r == Ok::<Option<UserInfo>, Error>(Some(row.info()))
            } else {
                r == Err::<Option<UserInfo>, Error>(Error::Unspecified)
            },
            Ok(None) => r == Ok::<Option<UserInfo>, Error>(None),
            Err(_) => r == Err::<Option<UserInfo>, Error>(Error::Unspecified),
        },
{
    match fetched {
        Ok(Some(row)) => match row.into_info() {
            Ok(info) => Ok(Some(info)),
            Err(e) => Err(e),
        },
        Ok(None) => Ok(None),
        Err(_) => Err(Error::Unspecified),
    }
}

/// The rows of a page query. Where the query failed only because it found no row, there are
/// no rows; any other failure is [`Error::Unspecified`].
pub fn rows_answer<T>(fetched: std::result::Result<Vec<T>, QueryFailure>) -> (r: Result<Vec<T>>)
    ensures
        match fetched {
            Ok(rows) => r == Ok::<Vec<T>, Error>(rows),
            Err(QueryFailure::RowNotFound) => r matches Ok(rows) && rows@.len() == 0,
            Err(_) => r == Err::<Vec<T>, Error>(Error::Unspecified),
        },
{
    match fetched {
        Ok(rows) => Ok(rows),
        Err(QueryFailure::RowNotFound) => Ok(Vec::new()),
        Err(_) => Err(Error::Unspecified),
    }
}

/// The holdings that the rows `(ticker, shares)` stand for, in the order of the rows.
///
/// A row whose ticker does not parse is left out. A row with a ticker and a negative share
/// count cannot be read, and then there is no result at all.
pub open spec fn decoded(rows: Seq<(String, i32)>) -> Option<Seq<(Ticker, u32)>>
    decreases rows.len(),
{
    if rows.len() == 0 {
        Some(Seq::empty())
    } else {
        let last = rows.last();
        match decoded(rows.drop_last()) {
            None => None,
            Some(front) => match Ticker::spec_new(encode_utf8(last.0@)) {
                Err(_) => Some(front),
                Ok(ticker) => if last.1 < 0 {
                    None
                } else {
                    Some(front.push((ticker, last.1 as u32)))
                },
            },
        }
    }
}

/// Whether every row holds a ticker and a share count that is not negative.
pub open spec fn all_readable(rows: Seq<(String, i32)>) -> bool {
    forall|i: int|
        0 <= i < rows.len() ==> Ticker::spec_new(encode_utf8((#[trigger] rows[i]).0@)) is Ok
            && rows[i].1 >= 0
}

/// Reading rows neither adds holdings nor reorders them: there are at most as many
/// holdings as rows, and rows that all hold a ticker and a share count that is not negative
/// give one holding each, in their order.
pub proof fn lemma_decoded_in_order(rows: Seq<(String, i32)>)
    ensures
        decoded(rows) matches Some(holdings) ==> holdings.len() <= rows.len(),
        all_readable(rows) ==> (decoded(rows) matches Some(holdings) && holdings.len()
            == rows.len() && forall|i: int|
            0 <= i < rows.len() ==> Ok::<Ticker, ParseError>((#[trigger] holdings[i]).0)
                == Ticker::spec_new(encode_utf8(rows[i].0@)) && holdings[i].1 == rows[i].1),
    decreases rows.len(),
{
    if rows.len() > 0 {
        let front = rows.drop_last();
        lemma_decoded_in_order(front);
        assert forall|i: int| 0 <= i < front.len() implies front[i] == rows[i] by {}
        assert(rows.last() == rows[rows.len() - 1]);
        if all_readable(rows) {
            assert(all_readable(front));
        }
    }
}

/// Whether the rows that hold a ticker come in ascending order of their tickers, no ticker
/// twice.
pub open spec fn rows_ascending(rows: Seq<(String, i32)>) -> bool {
    forall|i: int, j: int|
        0 <= i < j < rows.len() ==> match (
            Ticker::spec_new(encode_utf8((#[trigger] rows[i]).0@)),
            Ticker::spec_new(encode_utf8((#[trigger] rows[j]).0@)),
        ) {
            (Ok(s), Ok(t)) => symbol_before(s@, t@),
            _ => true,
        }
}

/// Whether the holdings come in ascending order of their tickers, no ticker twice.
pub open spec fn holdings_ascending(holdings: Seq<(Ticker, u32)>) -> bool {
    forall|i: int, j: int|
        0 <= i < j < holdings.len() ==> symbol_before(
            (#[trigger] holdings[i]).0@,
            (#[trigger] holdings[j]).0@,
        )
}

/// Every holding that was read stands for one of the rows.
proof fn lemma_decoded_from_rows(rows: Seq<(String, i32)>)
    ensures
        decoded(rows) matches Some(holdings) ==> forall|k: int|
            0 <= k < holdings.len() ==> exists|i: int|
                0 <= i < rows.len() && Ticker::spec_new(encode_utf8((#[trigger] rows[i]).0@))
                    == Ok::<Ticker, ParseError>((#[trigger] holdings[k]).0),
    decreases rows.len(),
{
    if rows.len() > 0 {
        let front = rows.drop_last();
        lemma_decoded_from_rows(front);
        if let Some(holdings) = decoded(rows) {
            let before = decoded(front).unwrap();
            assert forall|k: int| 0 <= k < holdings.len() implies exists|i: int|
                0 <= i < rows.len() && Ticker::spec_new(encode_utf8((#[trigger] rows[i]).0@))
                    == Ok::<Ticker, ParseError>((#[trigger] holdings[k]).0) by {
                if k < before.len() {
                    assert(holdings[k] == before[k]);
                    let i = choose|i: int|
                        0 <= i < front.len() && Ticker::spec_new(
                            encode_utf8((#[trigger] front[i]).0@),
                        ) == Ok::<Ticker, ParseError>(before[k].0);
                    assert(front[i] == rows[i]);
                } else {
                    assert(rows[rows.len() - 1] == rows.last());
                }
            }
        }
    }
}

/// Reading keeps the order of the store: rows that come in ascending order of ticker give
/// holdings in ascending order of ticker.
pub proof fn lemma_decoded_ascending(rows: Seq<(String, i32)>)
    requires
        rows_ascending(rows),
    ensures
        decoded(rows) matches Some(holdings) ==> holdings_ascending(holdings),
    decreases rows.len(),
{
    if rows.len() > 0 {
        let front = rows.drop_last();
        assert(rows_ascending(front)) by {
            assert forall|i: int, j: int| 0 <= i < j < front.len() implies match (
                Ticker::spec_new(encode_utf8((#[trigger] front[i]).0@)),
                Ticker::spec_new(encode_utf8((#[trigger] front[j]).0@)),
            ) {
                (Ok(s), Ok(t)) => symbol_before(s@, t@),
                _ => true,
            } by {
                assert(front[i] == rows[i]);
                assert(front[j] == rows[j]);
            }
        }
        lemma_decoded_ascending(front);
        lemma_decoded_from_rows(front);
        if let Some(holdings) = decoded(rows) {
            let before = decoded(front).unwrap();
            let n = rows.len() - 1;
            assert forall|i: int, j: int| 0 <= i < j < holdings.len() implies symbol_before(
                (#[trigger] holdings[i]).0@,
                (#[trigger] holdings[j]).0@,
            ) by {
                if j < before.len() {
                    assert(holdings[i] == before[i]);
                    assert(holdings[j] == before[j]);
                } else {
                    assert(holdings[i] == before[i]);
                    let r = choose|r: int|
                        0 <= r < front.len() && Ticker::spec_new(
                            encode_utf8((#[trigger] front[r]).0@),
                        ) == Ok::<Ticker, ParseError>(before[i].0);
                    assert(front[r] == rows[r]);
                    assert(rows[n] == rows.last());
                    assert(r < n);
                }
            }
        }
    }
}

/// The page of `all` that starts `offset` entries in and holds `limit` entries, or those
/// that are left where there are fewer. A negative offset counts as none.
pub open spec fn page_of<T>(all: Seq<T>, offset: int, limit: int) -> Seq<T> {
    let start = if offset < 0 {
        0
    } else if offset > all.len() {
        all.len() as int
    } else {
        offset
    };
    let end = if limit < 0 {
        start
    } else if start + limit > all.len() {
        all.len() as int
    } else {
        start + limit
    };
    all.subrange(start, end)
}

/// Paging and reading agree. Let a store hold the rows `all` of an account, each with a
/// ticker and a share count that is not negative, in ascending order of ticker, and let it
/// answer a pager with the page of its rows and with their count. Then the holdings that
/// are read from the page are the page of the account's holdings: at most `limit` of them,
/// in ascending order of ticker, no ticker twice. The count of entries beyond them is
/// what is left behind the page, and with those on the page and before it that makes all.
pub proof fn lemma_page_of_holdings(all: Seq<(String, i32)>, offset: i64, limit: i64)
    requires
        all_readable(all),
        rows_ascending(all),
        all.len() <= i64::MAX,
        all.len() <= usize::MAX,
        0 <= offset,
        1 <= limit,
    ensures
        decoded(all) is Some,
        decoded(page_of(all, offset as int, limit as int)) == Some(
            page_of(decoded(all).unwrap(), offset as int, limit as int),
        ),
        page_of(decoded(all).unwrap(), offset as int, limit as int).len() <= limit,
        holdings_ascending(page_of(decoded(all).unwrap(), offset as int, limit as int)),
        offset <= all.len() ==> offset + page_of(
            decoded(all).unwrap(),
            offset as int,
            limit as int,
        ).len() + spec_remaining(
            all.len() as i64,
            offset,
            page_of(decoded(all).unwrap(), offset as int, limit as int).len(),
        ) == all.len(),
        offset > all.len() ==> page_of(decoded(all).unwrap(), offset as int, limit as int).len()
            == 0 && spec_remaining(all.len() as i64, offset, 0) == 0,
{
    let rows = page_of(all, offset as int, limit as int);
    let start = if offset > all.len() {
        all.len() as int
    } else {
        offset as int
    };
    lemma_decoded_in_order(all);
    let holdings = decoded(all).unwrap();
    assert(all_readable(rows)) by {
        assert forall|i: int| 0 <= i < rows.len() implies Ticker::spec_new(
            encode_utf8((#[trigger] rows[i]).0@),
        ) is Ok && rows[i].1 >= 0 by {
            assert(rows[i] == all[start + i]);
        }
    }
    assert(rows_ascending(rows)) by {
        assert forall|i: int, j: int| 0 <= i < j < rows.len() implies match (
            Ticker::spec_new(encode_utf8((#[trigger] rows[i]).0@)),
            Ticker::spec_new(encode_utf8((#[trigger] rows[j]).0@)),
        ) {
            (Ok(s), Ok(t)) => symbol_before(s@, t@),
            _ => true,
        } by {
            assert(rows[i] == all[start + i]);
            assert(rows[j] == all[start + j]);
        }
    }
    lemma_decoded_in_order(rows);
    lemma_decoded_ascending(rows);
    let read = decoded(rows).unwrap();
    let page = page_of(holdings, offset as int, limit as int);
    assert(read =~= page) by {
        assert forall|i: int| 0 <= i < read.len() implies read[i] == page[i] by {
            assert(rows[i] == all[start + i]);
            assert(page[i] == holdings[start + i]);
            assert(Ok::<Ticker, ParseError>(read[i].0) == Ok::<Ticker, ParseError>(
                holdings[start + i].0,
            ));
        }
    }
}

/// Reads the rows of a page query as holdings. Fails with [`Error::Unspecified`] exactly
/// when [`decoded`] has no result for them.
pub fn decode_holdings(rows: &Vec<(String, i32)>) -> (r: Result<Vec<(Ticker, u32)>>)
    ensures
        match decoded(rows@) {
            Some(holdings) => r matches Ok(v) && v@ == holdings,
            None => r == Err::<Vec<(Ticker, u32)>, Error>(Error::Unspecified),
        },
{
    let mut out: Vec<(Ticker, u32)> = Vec::new();
    let mut i: usize = 0;
    while i < rows.len()
        invariant
            i <= rows@.len(),
            decoded(rows@.take(i as int)) == Some(out@),
        decreases rows@.len() - i,
    {
        let row = &rows[i];
        let ghost upto = rows@.take(i + 1);
        proof {
            assert(upto.drop_last() =~= rows@.take(i as int));
            assert(upto.last() == rows@[i as int]);
        }
        match Ticker::try_from(row.0.as_str()) {
            Ok(ticker) => {
                if row.1 < 0 {
                    proof {
                        lemma_unreadable_stays(rows@, i + 1);
                    }
                    return Err(Error::Unspecified);
                }
                out.push((ticker, row.1 as u32));
            },
            Err(_) => {},
        }
        i += 1;
    }
    assert(rows@.take(i as int) =~= rows@);
    Ok(out)
}

/// Once a front part of the rows cannot be read, the whole cannot.
proof fn lemma_unreadable_stays(rows: Seq<(String, i32)>, n: int)
    requires
        0 <= n <= rows.len(),
        decoded(rows.take(n)) is None,
    ensures
        decoded(rows) is None,
    decreases rows.len() - n,
{
    if n < rows.len() {
        let next = rows.take(n + 1);
        assert(next.drop_last() =~= rows.take(n));
        lemma_unreadable_stays(rows, n + 1);
    } else {
        assert(rows.take(n) =~= rows);
    }
}

/// How many entries lie beyond a page: the `total` of entries less those up to the end of
/// the page, which starts at `offset` and holds `returned` entries.
///
/// The count is a best effort: `total` may stem from a later moment than the page. It never
/// falls below zero, and one that does not fit the machine's word is cut to the largest that
/// does.
pub open spec fn spec_remaining(total: i64, offset: i64, returned: nat) -> int {
    let passed = if offset + returned < 0 {
        0
    } else {
        offset + returned
    };
    let left = if total - passed < 0 {
        0
    } else {
        total - passed
    };
    if left > usize::MAX {
        usize::MAX as int
    } else {
        left
    }
}

/// Where the page lies within the entries that `total` counts, the entries before the
/// page, those on it and those beyond it add up to `total`.
pub proof fn lemma_remaining_adds_up(total: i64, offset: i64, returned: nat)
    requires
        0 <= offset,
        offset + returned <= total <= usize::MAX,
    ensures
        offset + returned + spec_remaining(total, offset, returned) == total,
{
}

/// The count of entries beyond a page is never negative, and it is zero as soon as the
/// page ends at or behind the last entry.
pub proof fn lemma_remaining_bounds(total: i64, offset: i64, returned: nat)
    ensures
        0 <= spec_remaining(total, offset, returned) <= usize::MAX,
        offset + returned >= total ==> spec_remaining(total, offset, returned) == 0,
{
}

/// Computes the number of entries beyond a page.
pub fn remaining(total: i64, offset: i64, returned: usize) -> (left: usize)
    ensures
        left == spec_remaining(total, offset, returned as nat),
{
    let end: i128 = offset as i128 + returned as i128;
    let passed: i128 = if end < 0 {
        0
    } else {
        end
    };
    let left: i128 = total as i128 - passed;
    if left < 0 {
        0
    } else if left > usize::MAX as i128 {
        usize::MAX
    } else {
        left as usize
    }
}

/// The store's answer to a request for one page of an account's holdings.
///
/// `known` says whether the account exists, `rows` are the rows of the page in the order
/// of the query, and `total` is the number of all holdings of the account. For an unknown
/// account the answer is `None`, whatever the pager and the rows. Otherwise it is the
/// holdings that the rows stand for, with the number of entries beyond them, or
/// [`Error::Unspecified`] if a row cannot be read.
pub fn holdings_answer(known: bool, rows: &Vec<(String, i32)>, total: i64, page: &Pager) -> (r:
    Result<Option<HoldingsPage>>)
    ensures
        !known ==> r == Ok::<Option<HoldingsPage>, Error>(None),
        known ==> match decoded(rows@) {
            Some(holdings) => r matches Ok(Some(p)) && p.0@ == holdings && p.1 == spec_remaining(
                total,
                page.offset(),
                holdings.len(),
            ),
            None => r == Err::<Option<HoldingsPage>, Error>(Error::Unspecified),
        },
{
    if !known {
        return Ok(None);
    }
    match decode_holdings(rows) {
        Ok(holdings) => {
            let left = remaining(total, page.offset(), holdings.len());
            Ok(Some((holdings, left)))
        },
        Err(e) => Err(e),
    }
}

} // verus!
