//! The data that the lending workflow records and exchanges.

use vstd::prelude::*;
use vstd::string::StringExecFns;

verus! {

/// What happened to a book in one ledger entry.
#[derive(Copy, Clone, Debug, PartialEq, Eq, Structural)]
pub enum BookBorrowState {
    Borrowed,
    Returned,
}

impl BookBorrowState {
    /// The text under which the state is stored and shown.
    pub open spec fn label(self) -> Seq<char> {
        match self {
            BookBorrowState::Borrowed => "Borrowed"@,
            BookBorrowState::Returned => "Returned"@,
        }
    }

    /// The state that a stored text stands for: `Borrowed` for exactly that
    /// word, `Returned` for every other text.
    pub open spec fn parse(text: Seq<char>) -> BookBorrowState {
        if text == "Borrowed"@ {
            BookBorrowState::Borrowed
        } else {
            BookBorrowState::Returned
        }
    }

    /// Renders the state as text.
    pub fn to_string(&self) -> (text: String)
        ensures
            text@ == self.label(),
    {
        match self {
            BookBorrowState::Borrowed => String::from_str("Borrowed"),
            BookBorrowState::Returned => String::from_str("Returned"),
        }
    }

    /// Reads a state back from text. Never fails: whatever is not the word
    /// `Borrowed` counts as `Returned`.
    pub fn from_str(s: &str) -> (state: BookBorrowState)
        ensures
            state == Self::parse(s@),
    {
        let given = String::from_str(s);
        let borrowed = String::from_str("Borrowed");
        if given == borrowed {
            BookBorrowState::Borrowed
        } else {
            BookBorrowState::Returned
        }
    }
}

/// One row of the lending ledger. Identifiers are the 128-bit values of the
/// UUIDs used on the wire; the timestamp counts microseconds since the Unix
/// epoch.
#[derive(Copy, Clone, Debug, PartialEq, Eq, Structural)]
pub struct BookBorrowEntry {
    pub id: u128,
    pub book_id: u128,
    pub user_id: u128,
    pub timestamp: i64,
    pub state: BookBorrowState,
}

/// The body of a borrow or return request: who asks.
#[derive(Copy, Clone, Debug, PartialEq, Eq, Structural)]
pub struct BorrowBookRequest {
    pub user_id: u128,
}

} // verus!
