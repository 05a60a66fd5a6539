//! The rules that decide a borrow or a return from facts gathered
//! beforehand. The checks run in a fixed order and the first that fails
//! names the rejection, so a request that breaks several rules is always
//! turned down for the same one.

use vstd::prelude::*;
use crate::library::error::LibraryError;
use crate::library::model::{BookBorrowEntry, BookBorrowState};

verus! {

/// A ledger entry that was decided on and not yet written: it still lacks
/// the time of the write, and its identifier unless it takes over that of
/// the entry it answers.
#[derive(Copy, Clone, Debug, PartialEq, Eq, Structural)]
pub struct PendingEntry {
    pub book_id: u128,
    pub user_id: u128,
    pub state: BookBorrowState,
    /// The identifier to write, or `None` for one made at the write.
    pub entry_id: Option<u128>,
}

impl PendingEntry {
    /// The entry that is written at `timestamp`, with `fresh_id` where the
    /// pending entry names no identifier of its own.
    pub open spec fn completed(self, fresh_id: u128, timestamp: i64) -> BookBorrowEntry {
        BookBorrowEntry {
            id: match self.entry_id {
                Some(id) => id,
                None => fresh_id,
            },
            book_id: self.book_id,
            user_id: self.user_id,
            timestamp,
            state: self.state,
        }
    }

    /// Builds the entry to write.
    pub fn complete(&self, fresh_id: u128, timestamp: i64) -> (entry: BookBorrowEntry)
        ensures
            entry == self.completed(fresh_id, timestamp),
    {
        let id = match self.entry_id {
            Some(id) => id,
            None => fresh_id,
        };
        BookBorrowEntry {
            id,
            book_id: self.book_id,
            user_id: self.user_id,
            timestamp,
            state: self.state,
        }
    }
}

/// The outcome of validating a request.
#[derive(Copy, Clone, Debug, PartialEq, Eq, Structural)]
pub enum LendingDecision {
    /// The request is legal; the entry is to be appended to the ledger.
    Permitted(PendingEntry),
    /// The request is turned down, and nothing is to be written.
    Rejected(LibraryError),
}

/// Whether the newest entry of a book says that the book is out.
pub open spec fn is_borrowed(latest_book_event: Option<BookBorrowEntry>) -> bool {
    latest_book_event is Some && latest_book_event->0.state == BookBorrowState::Borrowed
}

/// The decision on a borrow request. In this order: an unknown book, an
/// unknown user, a user who already holds as many books as allowed, a book
/// that is out. A request that passes all four is permitted and writes a
/// `Borrowed` entry under a new identifier.
pub open spec fn borrow_decision(
    book_id: u128,
    user_id: u128,
    book_exists: bool,
    user_exists: bool,
    latest_book_event: Option<BookBorrowEntry>,
    currently_held: u32,
    max_borrowable: u32,
) -> LendingDecision {
    if !book_exists {
        LendingDecision::Rejected(LibraryError::BookNotExists)
    } else if !user_exists {
        LendingDecision::Rejected(LibraryError::UserNotExists)
    } else if currently_held >= max_borrowable {
        LendingDecision::Rejected(LibraryError::NumBorrowableExceeded(max_borrowable))
    } else if is_borrowed(latest_book_event) {
        LendingDecision::Rejected(LibraryError::BookAlreadyBorrowed)
    } else {
        LendingDecision::Permitted(
            PendingEntry { book_id, user_id, state: BookBorrowState::Borrowed, entry_id: None },
        )
    }
}

/// The decision on a return request. In this order: an unknown book, an
/// unknown user, a book that is not out, a book that someone else holds. A
/// request that passes all four is permitted and writes a `Returned` entry
/// under the identifier of the `Borrowed` entry that it answers.
pub open spec fn return_decision(
    book_id: u128,
    user_id: u128,
    book_exists: bool,
    user_exists: bool,
    latest_book_event: Option<BookBorrowEntry>,
) -> LendingDecision {
    if !book_exists {
        LendingDecision::Rejected(LibraryError::BookNotExists)
    } else if !user_exists {
        LendingDecision::Rejected(LibraryError::UserNotExists)
    } else if !is_borrowed(latest_book_event) {
        LendingDecision::Rejected(LibraryError::BookAlreadyReturned)
    } else if latest_book_event->0.user_id != user_id {
        LendingDecision::Rejected(LibraryError::BookNotBorrowedByUser)
    } else {
        LendingDecision::Permitted(
            PendingEntry {
                book_id,
                user_id,
                state: BookBorrowState::Returned,
                entry_id: Some(latest_book_event->0.id),
            },
        )
    }
}

/// Decides a borrow request.
pub fn validate_borrow(
    book_id: u128,
    user_id: u128,
    book_exists: bool,
    user_exists: bool,
    latest_book_event: Option<BookBorrowEntry>,
    currently_held: u32,
    max_borrowable: u32,
) -> (decision: LendingDecision)
    ensures
        decision == borrow_decision(
            book_id,
            user_id,
            book_exists,
            user_exists,
            latest_book_event,
            currently_held,
            max_borrowable,
        ),
{
    if !book_exists {
        return LendingDecision::Rejected(LibraryError::BookNotExists);
    }
    if !user_exists {
        return LendingDecision::Rejected(LibraryError::UserNotExists);
    }
    if currently_held >= max_borrowable {
        return LendingDecision::Rejected(LibraryError::NumBorrowableExceeded(max_borrowable));
    }
    match latest_book_event {
        Some(latest) => match latest.state {
            BookBorrowState::Borrowed => {
                return LendingDecision::Rejected(LibraryError::BookAlreadyBorrowed);
            },
            BookBorrowState::Returned => {},
        },
        None => {},
    }
    LendingDecision::Permitted(
        PendingEntry { book_id, user_id, state: BookBorrowState::Borrowed, entry_id: None },
    )
}

/// Decides a return request.
pub fn validate_return(
    book_id: u128,
    user_id: u128,
    book_exists: bool,
    user_exists: bool,
    latest_book_event: Option<BookBorrowEntry>,
) -> (decision: LendingDecision)
    ensures
        decision == return_decision(
            book_id,
            user_id,
            book_exists,
            user_exists,
            latest_book_event,
        ),
{
    if !book_exists {
        return LendingDecision::Rejected(LibraryError::BookNotExists);
    }
    if !user_exists {
        return LendingDecision::Rejected(LibraryError::UserNotExists);
    }
    match latest_book_event {
        Some(latest) => match latest.state {
            BookBorrowState::Borrowed => {
                if latest.user_id != user_id {
                    return LendingDecision::Rejected(LibraryError::BookNotBorrowedByUser);
                }
                LendingDecision::Permitted(
                    PendingEntry {
                        book_id,
                        user_id,
                        state: BookBorrowState::Returned,
                        entry_id: Some(latest.id),
                    },
                )
            },
            BookBorrowState::Returned => LendingDecision::Rejected(
                LibraryError::BookAlreadyReturned,
            ),
        },
        None => LendingDecision::Rejected(LibraryError::BookAlreadyReturned),
    }
}

} // verus!
