use biblioteca::error::ErrorResponse;
use biblioteca::library::error::{LibraryError, StorageError};
use biblioteca::library::model::{BookBorrowEntry, BookBorrowState};
use biblioteca::library::service::Library;

const USER: u128 = 0x0000_0000_0000_4000_8000_0000_0000_0001;
const USER_A: u128 = 0x0000_0000_0000_4000_8000_0000_0000_000a;
const USER_B: u128 = 0x0000_0000_0000_4000_8000_0000_0000_000b;
const BOOK: u128 = 0x0000_0000_0000_4000_8000_0000_0000_0100;
const BOOK_A: u128 = 0x0000_0000_0000_4000_8000_0000_0000_010a;
const BOOK_B: u128 = 0x0000_0000_0000_4000_8000_0000_0000_010b;
const BOOK_C: u128 = 0x0000_0000_0000_4000_8000_0000_0000_010c;
const BOOK_D: u128 = 0x0000_0000_0000_4000_8000_0000_0000_010d;
const UNKNOWN: u128 = 0x0000_0000_0000_4000_8000_0000_0000_0fff;

fn library_with(users: &[(u128, u32)], books: &[u128]) -> Library {
    let mut library = Library::new();
    for (user, max) in users {
        assert!(library.register_user(*user, *max));
    }
    for book in books {
        assert!(library.register_book(*book));
    }
    library
}

fn is_book_borrowed(library: &Library, book_id: u128) -> bool {
    match library.latest_event_for_book(book_id) {
        Some(entry) => entry.state == BookBorrowState::Borrowed,
        None => false,
    }
}

fn is_correct(response: &ErrorResponse, code: u16, part: &str) -> bool {
    response.code == code && response.message.contains(part)
}

#[test]
fn borrow_book_can_borrow_successful() {
    let mut library = library_with(&[(USER, 3)], &[BOOK]);
    assert_eq!(library.borrow_book(BOOK, USER), Ok(()));
    assert!(is_book_borrowed(&library, BOOK));
    assert_eq!(library.ledger().len(), 1);
    assert_eq!(library.count_currently_held(USER), 1);
}

#[test]
fn borrow_book_book_non_existent_failure() {
    let mut library = library_with(&[(USER, 3)], &[BOOK]);
    let result = library.borrow_book(UNKNOWN, USER);
    assert_eq!(result, Err(LibraryError::BookNotExists));
    let response = result.unwrap_err().response();
    assert_eq!(response.status, 400);
    assert!(is_correct(&response, 40001, "book does not exist"));
    assert_eq!(library.ledger().len(), 0);
}

#[test]
fn borrow_book_user_non_existent_failure() {
    let mut library = library_with(&[(USER, 3)], &[BOOK]);
    let result = library.borrow_book(BOOK, UNKNOWN);
    assert_eq!(result, Err(LibraryError::UserNotExists));
    let response = result.unwrap_err().response();
    assert_eq!(response.status, 400);
    assert!(is_correct(&response, 40001, "user does not exist"));
    assert_eq!(library.ledger().len(), 0);
}

#[test]
fn borrow_book_book_already_borrowed_failure() {
    let mut library = library_with(&[(USER_A, 3), (USER_B, 3)], &[BOOK]);
    assert_eq!(library.borrow_book(BOOK, USER_A), Ok(()));
    let result = library.borrow_book(BOOK, USER_B);
    assert_eq!(result, Err(LibraryError::BookAlreadyBorrowed));
    let response = result.unwrap_err().response();
    assert_eq!(response.status, 400);
    assert!(is_correct(&response, 40001, "already been borrowed"));
    assert_eq!(library.ledger().len(), 1);
    assert_eq!(library.latest_event_for_book(BOOK).unwrap().user_id, USER_A);
}

#[test]
fn borrow_book_user_borrowed_too_many_failure() {
    let mut library = library_with(&[(USER, 1)], &[BOOK_A, BOOK_B]);
    assert_eq!(library.borrow_book(BOOK_A, USER), Ok(()));
    let result = library.borrow_book(BOOK_B, USER);
    assert_eq!(result, Err(LibraryError::NumBorrowableExceeded(1)));
    let response = result.unwrap_err().response();
    assert_eq!(response.status, 400);
    assert!(is_correct(&response, 40001, "user has reached max num of borrowable books"));
    assert_eq!(response.message, "user has reached max num of borrowable books (max: 1)");
    assert!(!is_book_borrowed(&library, BOOK_B));
    assert_eq!(library.ledger().len(), 1);
}

#[test]
fn borrow_book_return_book_successful() {
    let mut library = library_with(&[(USER, 3)], &[BOOK]);
    assert_eq!(library.borrow_book(BOOK, USER), Ok(()));
    assert_eq!(library.return_book(BOOK, USER), Ok(()));
    assert!(!is_book_borrowed(&library, BOOK));
    assert_eq!(library.ledger().len(), 2);
    assert_eq!(library.count_currently_held(USER), 0);
}

#[test]
fn borrow_multiple_books_return_multiple_books_successful() {
    let mut library = library_with(&[(USER, 4)], &[BOOK_A, BOOK_B, BOOK_C, BOOK_D]);
    assert_eq!(library.borrow_book(BOOK_A, USER), Ok(()));
    assert_eq!(library.borrow_book(BOOK_B, USER), Ok(()));
    assert_eq!(library.borrow_book(BOOK_C, USER), Ok(()));
    assert_eq!(library.return_book(BOOK_C, USER), Ok(()));
    assert_eq!(library.return_book(BOOK_B, USER), Ok(()));
    assert_eq!(library.return_book(BOOK_A, USER), Ok(()));
    assert_eq!(library.borrow_book(BOOK_D, USER), Ok(()));
    assert_eq!(library.borrow_book(BOOK_A, USER), Ok(()));
    assert!(
        is_book_borrowed(&library, BOOK_A) && is_book_borrowed(&library, BOOK_D)
            && !is_book_borrowed(&library, BOOK_B) && !is_book_borrowed(&library, BOOK_C)
    );
    assert_eq!(library.ledger().len(), 8);
    assert_eq!(library.count_currently_held(USER), 2);
}

#[test]
fn return_book_can_return_successful() {
    let mut library = library_with(&[(USER, 3)], &[BOOK]);
    assert_eq!(library.borrow_book(BOOK, USER), Ok(()));
    assert_eq!(library.return_book(BOOK, USER), Ok(()));
    assert!(!is_book_borrowed(&library, BOOK));
    let latest = library.latest_event_for_book(BOOK).unwrap();
    assert_eq!(latest.state, BookBorrowState::Returned);
    assert_eq!(latest.user_id, USER);
}

#[test]
fn return_book_user_not_same_failure() {
    let mut library = library_with(&[(USER_A, 3), (USER_B, 3)], &[BOOK]);
    assert_eq!(library.borrow_book(BOOK, USER_A), Ok(()));
    let result = library.return_book(BOOK, USER_B);
    assert_eq!(result, Err(LibraryError::BookNotBorrowedByUser));
    let response = result.unwrap_err().response();
    assert_eq!(response.status, 400);
    assert_eq!(is_correct(&response, 40001, "book was not borrowed by given user"), true);
    assert!(is_book_borrowed(&library, BOOK));
    assert_eq!(library.ledger().len(), 1);
}

#[test]
fn return_book_book_non_existent_failure() {
    let mut library = library_with(&[(USER, 3)], &[BOOK]);
    assert_eq!(library.borrow_book(BOOK, USER), Ok(()));
    let result = library.return_book(UNKNOWN, USER);
    assert_eq!(result, Err(LibraryError::BookNotExists));
    let response = result.unwrap_err().response();
    assert_eq!(response.status, 400);
    assert!(is_correct(&response, 40001, "book does not exist"));
    assert_eq!(library.ledger().len(), 1);
}

#[test]
fn return_book_user_non_existent_failure() {
    let mut library = library_with(&[(USER, 3)], &[BOOK]);
    assert_eq!(library.borrow_book(BOOK, USER), Ok(()));
    let result = library.return_book(BOOK, UNKNOWN);
    assert_eq!(result, Err(LibraryError::UserNotExists));
    let response = result.unwrap_err().response();
    assert_eq!(response.status, 400);
    assert!(is_correct(&response, 40001, "user does not exist"));
    assert_eq!(library.ledger().len(), 1);
}

#[test]
fn return_book_book_already_returned_failure() {
    let mut library = library_with(&[(USER, 3)], &[BOOK]);
    assert_eq!(library.borrow_book(BOOK, USER), Ok(()));
    assert_eq!(library.return_book(BOOK, USER), Ok(()));
    let result = library.return_book(BOOK, USER);
    assert_eq!(result, Err(LibraryError::BookAlreadyReturned));
    let response = result.unwrap_err().response();
    assert_eq!(response.status, 400);
    assert!(is_correct(&response, 40001, "book has already been returned"));
    assert_eq!(library.ledger().len(), 2);
}

#[test]
fn return_of_a_book_never_borrowed_is_already_returned() {
    let mut library = library_with(&[(USER, 3)], &[BOOK]);
    assert_eq!(library.return_book(BOOK, USER), Err(LibraryError::BookAlreadyReturned));
    assert_eq!(library.ledger().len(), 0);
}

#[test]
fn scenario_first_borrow_is_permitted_and_written() {
    let mut library = library_with(&[(USER, 1)], &[BOOK]);
    assert_eq!(library.count_currently_held(USER), 0);
    assert_eq!(library.borrow_book_at(BOOK, USER, 7, 1_000), Ok(()));
    assert_eq!(library.ledger().len(), 1);
    assert_eq!(
        library.ledger().get(0),
        Some(BookBorrowEntry {
            id: 7,
            book_id: BOOK,
            user_id: USER,
            timestamp: 1_000,
            state: BookBorrowState::Borrowed,
        })
    );
}

#[test]
fn scenario_second_borrower_is_told_already_borrowed() {
    let mut library = library_with(&[(USER, 1), (USER_B, 1)], &[BOOK]);
    assert_eq!(library.borrow_book_at(BOOK, USER, 7, 1_000), Ok(()));
    assert_eq!(
        library.borrow_book_at(BOOK, USER_B, 8, 1_001),
        Err(LibraryError::BookAlreadyBorrowed)
    );
    assert_eq!(library.ledger().len(), 1);
}

#[test]
fn scenario_return_writes_a_returned_entry() {
    let mut library = library_with(&[(USER, 1)], &[BOOK]);
    assert_eq!(library.borrow_book_at(BOOK, USER, 7, 1_000), Ok(()));
    assert_eq!(library.return_book_at(BOOK, USER, 8, 1_001), Ok(()));
    assert_eq!(library.ledger().len(), 2);
    assert_eq!(
        library.latest_event_for_book(BOOK),
        Some(BookBorrowEntry {
            id: 7,
            book_id: BOOK,
            user_id: USER,
            timestamp: 1_001,
            state: BookBorrowState::Returned,
        })
    );
}

#[test]
fn scenario_quota_of_one_is_used_up_by_one_book() {
    let mut library = library_with(&[(USER, 1)], &[BOOK_A, BOOK]);
    assert_eq!(library.borrow_book_at(BOOK_A, USER, 7, 1_000), Ok(()));
    assert_eq!(
        library.borrow_book_at(BOOK, USER, 8, 1_001),
        Err(LibraryError::NumBorrowableExceeded(1))
    );
    assert_eq!(library.ledger().len(), 1);
}

#[test]
fn scenario_unknown_book_is_rejected_without_a_write() {
    let mut library = library_with(&[(USER, 1)], &[BOOK]);
    assert_eq!(library.borrow_book_at(UNKNOWN, USER, 7, 1_000), Err(LibraryError::BookNotExists));
    assert_eq!(library.ledger().len(), 0);
}

#[test]
fn scenario_return_by_another_user_is_rejected() {
    let mut library = library_with(&[(USER_A, 1), (USER_B, 1)], &[BOOK]);
    assert_eq!(library.borrow_book_at(BOOK, USER_A, 7, 1_000), Ok(()));
    assert_eq!(
        library.return_book_at(BOOK, USER_B, 8, 1_001),
        Err(LibraryError::BookNotBorrowedByUser)
    );
    assert_eq!(library.ledger().len(), 1);
}

#[test]
fn two_borrows_of_one_book_grant_exactly_one() {
    for (first, second) in [(USER_A, USER_B), (USER_B, USER_A), (USER_A, USER_A)] {
        let mut library = library_with(&[(USER_A, 2), (USER_B, 2)], &[BOOK]);
        let one = library.borrow_book_at(BOOK, first, 1, 50);
        let two = library.borrow_book_at(BOOK, second, 2, 50);
        assert_eq!(one, Ok(()));
        assert_eq!(two, Err(LibraryError::BookAlreadyBorrowed));
        assert_eq!(library.ledger().len(), 1);
    }
}

#[test]
fn second_borrower_at_the_limit_is_told_so_first() {
    let mut library = library_with(&[(USER_A, 2), (USER_B, 1)], &[BOOK, BOOK_B]);
    assert_eq!(library.borrow_book_at(BOOK_B, USER_B, 1, 10), Ok(()));
    assert_eq!(library.borrow_book_at(BOOK, USER_A, 2, 20), Ok(()));
    assert_eq!(
        library.borrow_book_at(BOOK, USER_B, 3, 30),
        Err(LibraryError::NumBorrowableExceeded(1))
    );
}

#[test]
fn holdings_never_exceed_the_allowance() {
    let mut library = library_with(&[(USER, 2)], &[BOOK_A, BOOK_B, BOOK_C]);
    let mut clock = 0;
    for round in 0..4 {
        for book in [BOOK_A, BOOK_B, BOOK_C] {
            clock += 1;
            let _ = library.borrow_book_at(book, USER, clock as u128, clock);
            assert!(library.count_currently_held(USER) <= library.max_borrowable(USER));
        }
        clock += 1;
        let given_back = if round % 2 == 0 { BOOK_A } else { BOOK_B };
        let _ = library.return_book_at(given_back, USER, clock as u128, clock);
        assert!(library.count_currently_held(USER) <= library.max_borrowable(USER));
    }
    assert_eq!(library.count_currently_held(USER), 1);
    assert!(library.latest_event_for_book(BOOK_A).unwrap().state == BookBorrowState::Borrowed);
}

#[test]
fn a_returned_book_can_be_borrowed_by_anyone() {
    let mut library = library_with(&[(USER_A, 1), (USER_B, 1)], &[BOOK]);
    assert_eq!(library.borrow_book_at(BOOK, USER_A, 1, 10), Ok(()));
    assert_eq!(library.return_book_at(BOOK, USER_A, 2, 10), Ok(()));
    assert_eq!(library.count_currently_held(USER_A), 0);
    assert_eq!(library.borrow_book_at(BOOK, USER_B, 3, 10), Ok(()));
    assert_eq!(library.latest_event_for_book(BOOK).unwrap().user_id, USER_B);
    assert_eq!(library.count_currently_held(USER_B), 1);
}

#[test]
fn repeated_returns_write_nothing() {
    let mut library = library_with(&[(USER_A, 1), (USER_B, 1)], &[BOOK]);
    assert_eq!(library.borrow_book_at(BOOK, USER_A, 1, 10), Ok(()));
    assert_eq!(library.return_book_at(BOOK, USER_A, 2, 11), Ok(()));
    for attempt in 0..5 {
        let user = if attempt % 2 == 0 { USER_A } else { USER_B };
        assert_eq!(
            library.return_book_at(BOOK, user, 3 + attempt, 12 + attempt as i64),
            Err(LibraryError::BookAlreadyReturned)
        );
        assert_eq!(library.ledger().len(), 2);
    }
}

#[test]
fn a_write_older_than_the_newest_entry_is_a_database_error() {
    let mut library = library_with(&[(USER, 1)], &[BOOK]);
    assert_eq!(library.borrow_book_at(BOOK, USER, 1, 100), Ok(()));
    let result = library.return_book_at(BOOK, USER, 2, 99);
    assert_eq!(result, Err(LibraryError::DatabaseError(StorageError::OutOfOrder)));
    assert_eq!(library.ledger().len(), 1);
    assert!(is_book_borrowed(&library, BOOK));
    let response = result.unwrap_err().response();
    assert_eq!(response.status, 500);
    assert_eq!(response.code, 50001);
    assert_eq!(response.message, "Internal server error -- check logs for more details!");
}

#[test]
fn unknown_book_is_named_before_unknown_user() {
    let mut library = library_with(&[(USER, 1)], &[BOOK]);
    assert_eq!(library.borrow_book_at(UNKNOWN, UNKNOWN, 1, 1), Err(LibraryError::BookNotExists));
    assert_eq!(library.return_book_at(UNKNOWN, UNKNOWN, 1, 1), Err(LibraryError::BookNotExists));
}

#[test]
fn registering_twice_keeps_the_first_allowance() {
    let mut library = Library::new();
    assert!(library.register_user(USER, 2));
    assert!(!library.register_user(USER, 9));
    assert_eq!(library.max_borrowable(USER), 2);
    assert!(library.user_exists(USER));
    assert!(!library.user_exists(USER_B));
    assert_eq!(library.max_borrowable(USER_B), 0);
    assert!(library.register_book(BOOK));
    assert!(!library.register_book(BOOK));
    assert!(library.book_exists(BOOK));
    assert!(!library.book_exists(BOOK_B));
}

#[test]
fn a_user_with_no_allowance_cannot_borrow() {
    let mut library = library_with(&[(USER, 0)], &[BOOK]);
    assert_eq!(library.borrow_book(BOOK, USER), Err(LibraryError::NumBorrowableExceeded(0)));
    assert_eq!(library.ledger().len(), 0);
}

#[test]
fn entries_written_now_carry_a_random_identifier_and_the_time() {
    let mut library = library_with(&[(USER, 2)], &[BOOK_A, BOOK_B]);
    assert_eq!(library.borrow_book(BOOK_A, USER), Ok(()));
    assert_eq!(library.borrow_book(BOOK_B, USER), Ok(()));
    let first = library.ledger().get(0).unwrap();
    let second = library.ledger().get(1).unwrap();
    let fixed = 0x0000_0000_0000_f000_c000_0000_0000_0000u128;
    assert_eq!(first.id & fixed, 0x0000_0000_0000_4000_8000_0000_0000_0000);
    assert_eq!(second.id & fixed, 0x0000_0000_0000_4000_8000_0000_0000_0000);
    assert_ne!(first.id, second.id);
    // 2020-01-01T00:00:00Z in microseconds
    assert!(first.timestamp > 1_577_836_800_000_000);
    assert!(second.timestamp >= first.timestamp);
    assert_eq!(library.return_book(BOOK_A, USER), Ok(()));
    let third = library.ledger().get(2).unwrap();
    assert_eq!(third.id, first.id);
    assert_eq!(third.state, BookBorrowState::Returned);
}
