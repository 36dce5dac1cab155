use chrono::NaiveDate;
use rse_core::model::ticker::Ticker;
use rse_core::model::Pager;
use rse_core::repo::pg::{
    answered, decode_holdings, exists_answer, holdings_answer, insert_answer, insert_failure,
    remaining, rows_answer, user_answer, QueryFailure, UserRow,
};
use rse_core::repo::Error;
use rust_decimal::Decimal;
use uuid::Uuid;

fn row(ticker: &str, shares: i32) -> (String, i32) {
    (ticker.to_string(), shares)
}

fn holding(ticker: &str, shares: u32) -> (Ticker, u32) {
    (Ticker::try_from(ticker).unwrap(), shares)
}

fn user_row(disc_id: Option<i64>) -> UserRow {
    UserRow {
        user_id: Uuid::from_u128(1),
        balance: Decimal::new(12345, 2),
        created_at: NaiveDate::from_ymd_opt(2025, 3, 4).unwrap().and_hms_opt(5, 6, 7).unwrap(),
        mc_id: Some(Uuid::from_u128(2)),
        disc_id,
    }
}

#[test]
fn a_value_that_was_fetched_is_the_answer() {
    assert_eq!(answered(Ok(Some(4u8))), Ok(Some(4)));
    assert_eq!(answered::<Option<u8>>(Ok(None)), Ok(None));
}

#[test]
fn every_failure_of_a_plain_query_is_unspecified() {
    for failure in [QueryFailure::RowNotFound, QueryFailure::UniqueViolation, QueryFailure::Other] {
        assert_eq!(answered::<u8>(Err(failure)), Err(Error::Unspecified));
    }
}

#[test]
fn an_existence_probe_answers_with_its_flag() {
    assert_eq!(exists_answer(Ok(Some(true))), Ok(true));
    assert_eq!(exists_answer(Ok(Some(false))), Ok(false));
    assert_eq!(exists_answer(Ok(None)), Ok(false));
    assert_eq!(exists_answer(Err(QueryFailure::Other)), Err(Error::Unspecified));
    assert_eq!(exists_answer(Err(QueryFailure::RowNotFound)), Err(Error::Unspecified));
}

#[test]
fn only_a_unique_violation_means_already_linked() {
    assert_eq!(insert_failure(QueryFailure::UniqueViolation), Error::AlreadyLinked);
    assert_eq!(insert_failure(QueryFailure::Other), Error::Unspecified);
    assert_eq!(insert_failure(QueryFailure::RowNotFound), Error::Unspecified);
}

#[test]
fn an_insert_answers_with_the_new_id_or_its_failure() {
    let id = Uuid::from_u128(77);
    assert_eq!(insert_answer(Ok(id)), Ok(id));
    assert_eq!(insert_answer(Err(QueryFailure::UniqueViolation)), Err(Error::AlreadyLinked));
    assert_eq!(insert_answer(Err(QueryFailure::Other)), Err(Error::Unspecified));
}

#[test]
fn a_row_with_a_positive_chat_identity_is_read() {
    let info = user_row(Some(1_408_958_403_438_444_746)).into_info().unwrap();
    assert_eq!(info.id, Uuid::from_u128(1));
    assert_eq!(info.balance, Decimal::new(12345, 2));
    assert_eq!(
        info.created_at,
        NaiveDate::from_ymd_opt(2025, 3, 4).unwrap().and_hms_opt(5, 6, 7).unwrap()
    );
    assert_eq!(info.mc_id, Some(Uuid::from_u128(2)));
    assert_eq!(info.disc_id, Some(1_408_958_403_438_444_746));
    assert_eq!(user_row(Some(1)).into_info().unwrap().disc_id, Some(1));
    assert_eq!(user_row(Some(i64::MAX)).into_info().unwrap().disc_id, Some(i64::MAX as u64));
}

#[test]
fn a_row_without_a_chat_identity_is_read() {
    let info = user_row(None).into_info().unwrap();
    assert_eq!(info.disc_id, None);
    assert_eq!(info.mc_id, Some(Uuid::from_u128(2)));
}

#[test]
fn a_row_with_a_chat_identity_of_zero_or_less_is_not_read() {
    for bad in [0, -1, i64::MIN] {
        assert!(matches!(user_row(Some(bad)).into_info(), Err(Error::Unspecified)));
        assert!(matches!(user_answer(Ok(Some(user_row(Some(bad))))), Err(Error::Unspecified)));
    }
}

#[test]
fn the_lookup_of_an_account_answers_with_the_row_read() {
    let found = user_answer(Ok(Some(user_row(Some(5))))).unwrap().unwrap();
    assert_eq!(found.id, Uuid::from_u128(1));
    assert_eq!(found.disc_id, Some(5));
    assert!(matches!(user_answer(Ok(None)), Ok(None)));
    assert!(matches!(user_answer(Err(QueryFailure::Other)), Err(Error::Unspecified)));
    assert!(matches!(user_answer(Err(QueryFailure::RowNotFound)), Err(Error::Unspecified)));
}

#[test]
fn rows_that_were_fetched_are_the_rows() {
    assert_eq!(rows_answer(Ok(vec![1, 2, 3])), Ok(vec![1, 2, 3]));
    assert_eq!(rows_answer::<u8>(Ok(vec![])), Ok(vec![]));
}

#[test]
fn no_row_found_means_no_rows() {
    assert_eq!(rows_answer::<u8>(Err(QueryFailure::RowNotFound)), Ok(vec![]));
    assert_eq!(rows_answer::<u8>(Err(QueryFailure::Other)), Err(Error::Unspecified));
    assert_eq!(rows_answer::<u8>(Err(QueryFailure::UniqueViolation)), Err(Error::Unspecified));
}

#[test]
fn rows_become_holdings_in_their_order() {
    let rows = vec![row("AAPL", 10), row("tsla", 5), row("ZZZ", 1)];
    assert_eq!(
        decode_holdings(&rows),
        Ok(vec![holding("AAPL", 10), holding("TSLA", 5), holding("ZZZ", 1)])
    );
    let unsorted = vec![row("ZZZ", 0), row("AAPL", i32::MAX)];
    assert_eq!(
        decode_holdings(&unsorted),
        Ok(vec![holding("ZZZ", 0), holding("AAPL", i32::MAX as u32)])
    );
    assert_eq!(decode_holdings(&vec![]), Ok(vec![]));
}

#[test]
fn rows_without_a_ticker_are_left_out() {
    let rows = vec![row("AAPL", 10), row("X", 4), row("N0PE", 3), row("TOOLONG", 2), row("ZZZ", 1)];
    assert_eq!(decode_holdings(&rows), Ok(vec![holding("AAPL", 10), holding("ZZZ", 1)]));
    // A row without a ticker is left out before its shares are looked at.
    assert_eq!(decode_holdings(&vec![row("??", -1), row("ABC", 2)]), Ok(vec![holding("ABC", 2)]));
}

#[test]
fn a_negative_share_count_cannot_be_read() {
    assert_eq!(decode_holdings(&vec![row("AAPL", -1)]), Err(Error::Unspecified));
    assert_eq!(
        decode_holdings(&vec![row("AAPL", 1), row("TSLA", i32::MIN), row("ZZZ", 1)]),
        Err(Error::Unspecified)
    );
}

#[test]
fn the_entries_beyond_a_page_are_counted() {
    assert_eq!(remaining(3, 0, 2), 1);
    assert_eq!(remaining(3, 2, 1), 0);
    assert_eq!(remaining(40, 16, 16), 8);
    assert_eq!(remaining(0, 0, 0), 0);
    assert_eq!(remaining(5, 0, 0), 5);
    assert_eq!(remaining(i64::MAX, 0, 0) as u128, i64::MAX as u128);
}

#[test]
fn a_page_behind_the_end_has_nothing_beyond_it() {
    assert_eq!(remaining(3, 5, 0), 0);
    assert_eq!(remaining(3, 2, 2), 0);
    assert_eq!(remaining(0, 16, 0), 0);
    assert_eq!(remaining(-1, 0, 0), 0);
    assert_eq!(remaining(3, i64::MAX, usize::MAX), 0);
}

#[test]
fn a_negative_offset_counts_as_the_start_where_the_page_ends_before_it() {
    // Offset and page length add up to less than nothing: all entries are beyond.
    assert_eq!(remaining(3, -5, 2), 3);
    assert_eq!(remaining(3, i64::MIN, 0), 3);
    // They add up to one: one entry is passed.
    assert_eq!(remaining(3, -1, 2), 2);
}

#[test]
fn the_first_page_of_three_holdings_by_two() {
    let rows = vec![row("AAPL", 10), row("TSLA", 5)];
    let page = Pager::new(0, 2);
    assert_eq!(
        holdings_answer(true, &rows, 3, &page),
        Ok(Some((vec![holding("AAPL", 10), holding("TSLA", 5)], 1)))
    );
}

#[test]
fn the_second_page_of_three_holdings_by_two() {
    let rows = vec![row("ZZZ", 1)];
    let page = Pager::new(2, 2);
    assert_eq!(holdings_answer(true, &rows, 3, &page), Ok(Some((vec![holding("ZZZ", 1)], 0))));
}

#[test]
fn an_unknown_account_has_no_page_whatever_the_pager() {
    let rows = vec![row("AAPL", 10)];
    for (offset, limit) in [(0, 1), (0, 16), (-3, 0), (i64::MAX, i64::MAX), (i64::MIN, i64::MIN)] {
        let page = Pager::new(offset, limit);
        assert_eq!(holdings_answer(false, &rows, 3, &page), Ok(None));
        assert_eq!(holdings_answer(false, &vec![], 0, &page), Ok(None));
        assert_eq!(holdings_answer(false, &vec![row("AAPL", -1)], 0, &page), Ok(None));
    }
}

#[test]
fn a_known_account_without_holdings_has_an_empty_page() {
    let page = Pager::new(0, 16);
    assert_eq!(holdings_answer(true, &vec![], 0, &page), Ok(Some((vec![], 0))));
}

#[test]
fn an_unreadable_row_fails_the_page() {
    let page = Pager::new(0, 16);
    assert_eq!(holdings_answer(true, &vec![row("AAPL", -4)], 1, &page), Err(Error::Unspecified));
}

#[test]
fn rows_left_out_do_not_count_as_returned() {
    let page = Pager::new(0, 3);
    let rows = vec![row("AAPL", 1), row("bad ticker", 2), row("ZZZ", 3)];
    assert_eq!(
        holdings_answer(true, &rows, 5, &page),
        Ok(Some((vec![holding("AAPL", 1), holding("ZZZ", 3)], 3)))
    );
}
