//! The lending service: a catalog of books, a register of users with their
//! allowances, and the ledger, behind two operations that each gather the
//! facts, let the validator decide, and write at most one entry.
//!
//! A request works on the service through `&mut`, so the reading, the
//! decision and the write of one request are never interleaved with those
//! of another: of two requests for the same book the second sees what the
//! first has written.

use vstd::prelude::*;
use std::collections::{HashMap, HashSet};
use crate::library::error::{LibraryError, StorageError};
use crate::library::ledger::{
    accepts,
    chronological,
    held_books,
    held_count,
    holder,
    latest_event,
    lemma_append_keeps_chronological,
    lemma_held_count_after_append,
    lemma_latest_event_is_newest,
    newest_at,
    saturated,
    Ledger,
};
use crate::library::model::BookBorrowEntry;
use crate::library::stamp::{current_timestamp, fresh_entry_id};
use crate::library::validator::{
    borrow_decision,
    return_decision,
    validate_borrow,
    validate_return,
    LendingDecision,
};

verus! {

broadcast use vstd::std_specs::hash::group_hash_axioms;

/// What the service knows, as mathematical values.
#[verifier::ext_equal]
pub struct LibraryView {
    /// The books of the catalog.
    pub books: Set<u128>,
    /// The registered users, each with the number of books allowed at once.
    pub quotas: Map<u128, u32>,
    /// The ledger, oldest entry first.
    pub ledger: Seq<BookBorrowEntry>,
}

impl LibraryView {
    /// The allowance of `user_id`; zero for an unknown user.
    pub open spec fn max_borrowable(self, user_id: u128) -> u32 {
        if self.quotas.contains_key(user_id) {
            self.quotas[user_id]
        } else {
            0
        }
    }

    /// The decision on a borrow request in this state.
    pub open spec fn decide_borrow(self, book_id: u128, user_id: u128) -> LendingDecision {
        borrow_decision(
            book_id,
            user_id,
            self.books.contains(book_id),
            self.quotas.contains_key(user_id),
            latest_event(self.ledger, book_id),
            saturated(held_count(self.ledger, user_id)),
            self.max_borrowable(user_id),
        )
    }

    /// The decision on a return request in this state.
    pub open spec fn decide_return(self, book_id: u128, user_id: u128) -> LendingDecision {
        return_decision(
            book_id,
            user_id,
            self.books.contains(book_id),
            self.quotas.contains_key(user_id),
            latest_event(self.ledger, book_id),
        )
    }

    /// Carries a decision out: a rejection is reported and changes nothing;
    /// a permitted entry is written with `fresh_id` and `timestamp`, unless
    /// the ledger turns it down, which is reported as a database error and
    /// changes nothing either.
    pub open spec fn commit(self, decision: LendingDecision, fresh_id: u128, timestamp: i64) -> (
        Result<(), LibraryError>,
        LibraryView,
    ) {
        match decision {
            LendingDecision::Rejected(reason) => (Err(reason), self),
            LendingDecision::Permitted(pending) => {
                let entry = pending.completed(fresh_id, timestamp);
                if accepts(self.ledger, entry) {
                    (Ok(()), LibraryView { ledger: self.ledger.push(entry), ..self })
                } else {
                    (Err(LibraryError::DatabaseError(StorageError::OutOfOrder)), self)
                }
            },
        }
    }

    /// The result of a borrow request and the state after it.
    pub open spec fn borrow_step(
        self,
        book_id: u128,
        user_id: u128,
        fresh_id: u128,
        timestamp: i64,
    ) -> (Result<(), LibraryError>, LibraryView) {
        self.commit(self.decide_borrow(book_id, user_id), fresh_id, timestamp)
    }

    /// The result of a return request and the state after it.
    pub open spec fn return_step(
        self,
        book_id: u128,
        user_id: u128,
        fresh_id: u128,
        timestamp: i64,
    ) -> (Result<(), LibraryError>, LibraryView) {
        self.commit(self.decide_return(book_id, user_id), fresh_id, timestamp)
    }

    /// Whether every entry of the ledger names a registered user.
    pub open spec fn entries_of_members(self) -> bool {
        forall|i: int|
            0 <= i < self.ledger.len() ==> self.quotas.contains_key(
                (#[trigger] self.ledger[i]).user_id,
            )
    }

    /// Whether no registered user holds more books than allowed.
    pub open spec fn quotas_respected(self) -> bool {
        forall|user_id: u128| #[trigger]
            self.quotas.contains_key(user_id) ==> held_count(self.ledger, user_id)
                <= self.quotas[user_id]
    }

    /// What holds of every state that the service can reach.
    pub open spec fn consistent(self) -> bool {
        &&& chronological(self.ledger)
        &&& self.entries_of_members()
        &&& self.quotas_respected()
    }
}

/// A user whom no entry names holds nothing.
pub proof fn lemma_stranger_holds_nothing(view: LibraryView, user_id: u128)
    requires
        view.entries_of_members(),
        !view.quotas.contains_key(user_id),
    ensures
        held_books(view.ledger, user_id) == Set::<u128>::empty(),
        held_count(view.ledger, user_id) == 0,
{
    assert forall|book_id: u128| !held_books(view.ledger, user_id).contains(book_id) by {
        lemma_latest_event_is_newest(view.ledger, book_id);
        if holder(view.ledger, book_id) == Some(user_id) {
            let latest = latest_event(view.ledger, book_id)->0;
            let i = choose|i: int| #[trigger]
                newest_at(view.ledger, book_id, i) && view.ledger[i] == latest;
            assert(view.quotas.contains_key(view.ledger[i].user_id));
        }
    }
    assert(held_books(view.ledger, user_id) =~= Set::<u128>::empty());
}

/// Carrying out the decision on a borrow request keeps a consistent state
/// consistent.
pub proof fn lemma_borrow_step_consistent(
    view: LibraryView,
    book_id: u128,
    user_id: u128,
    fresh_id: u128,
    timestamp: i64,
)
    requires
        view.consistent(),
    ensures
        view.borrow_step(book_id, user_id, fresh_id, timestamp).1.consistent(),
{
    let (result, after) = view.borrow_step(book_id, user_id, fresh_id, timestamp);
    if result is Ok {
        let entry = view.decide_borrow(book_id, user_id)->Permitted_0.completed(
            fresh_id,
            timestamp,
        );
        lemma_append_keeps_chronological(view.ledger, entry);
        assert(after.entries_of_members()) by {
            assert forall|i: int| 0 <= i < after.ledger.len() implies after.quotas.contains_key(
                (#[trigger] after.ledger[i]).user_id,
            ) by {
                if i < view.ledger.len() {
                    assert(after.ledger[i] == view.ledger[i]);
                }
            }
        }
        assert(after.quotas_respected()) by {
            assert forall|other: u128| #[trigger]
                after.quotas.contains_key(other) implies held_count(after.ledger, other)
                <= after.quotas[other] by {
                lemma_held_count_after_append(view.ledger, entry, other);
                assert(view.quotas.contains_key(other));
            }
        }
    }
}

/// Carrying out the decision on a return request keeps a consistent state
/// consistent.
pub proof fn lemma_return_step_consistent(
    view: LibraryView,
    book_id: u128,
    user_id: u128,
    fresh_id: u128,
    timestamp: i64,
)
    requires
        view.consistent(),
    ensures
        view.return_step(book_id, user_id, fresh_id, timestamp).1.consistent(),
{
    let (result, after) = view.return_step(book_id, user_id, fresh_id, timestamp);
    if result is Ok {
        let entry = view.decide_return(book_id, user_id)->Permitted_0.completed(
            fresh_id,
            timestamp,
        );
        lemma_append_keeps_chronological(view.ledger, entry);
        assert(after.entries_of_members()) by {
            assert forall|i: int| 0 <= i < after.ledger.len() implies after.quotas.contains_key(
                (#[trigger] after.ledger[i]).user_id,
            ) by {
                if i < view.ledger.len() {
                    assert(after.ledger[i] == view.ledger[i]);
                }
            }
        }
        assert(after.quotas_respected()) by {
            assert forall|other: u128| #[trigger]
                after.quotas.contains_key(other) implies held_count(after.ledger, other)
                <= after.quotas[other] by {
                lemma_held_count_after_append(view.ledger, entry, other);
                assert(view.quotas.contains_key(other));
            }
        }
    }
}

/// The lending service.
#[derive(Debug)]
pub struct Library {
    books: HashSet<u128>,
    quotas: HashMap<u128, u32>,
    ledger: Ledger,
}

impl View for Library {
    type V = LibraryView;

    closed spec fn view(&self) -> LibraryView {
        LibraryView { books: self.books@, quotas: self.quotas@, ledger: self.ledger@ }
    }
}

impl Library {
    /// Whether the service is in a state that it can reach. It is so when
    /// made, and every operation keeps it so.
    pub open spec fn wf(&self) -> bool {
        self@.consistent()
    }

    /// A service without books, users or entries.
    pub fn new() -> (library: Self)
        ensures
            library.wf(),
            library@.books == Set::<u128>::empty(),
            library@.quotas == Map::<u128, u32>::empty(),
            library@.ledger == Seq::<BookBorrowEntry>::empty(),
    {
        let library = Library { books: HashSet::new(), quotas: HashMap::new(), ledger: Ledger::new() };
        proof {
            assert forall|user_id: u128| #[trigger]
                library@.quotas.contains_key(user_id) implies held_count(
                library@.ledger,
                user_id,
            ) <= library@.quotas[user_id] by {}
        }
        library
    }

    /// Adds a book to the catalog. Says whether the book was new.
    pub fn register_book(&mut self, book_id: u128) -> (added: bool)
        requires
            old(self).wf(),
        ensures
            final(self).wf(),
            added == !old(self)@.books.contains(book_id),
            final(self)@ == (LibraryView {
                books: old(self)@.books.insert(book_id),
                ..old(self)@
            }),
    {
        self.books.insert(book_id)
    }

    /// Registers a user with the number of books allowed at once. A user
    /// who is registered already keeps the allowance given first, and
    /// `false` is returned.
    pub fn register_user(&mut self, user_id: u128, max_borrowable: u32) -> (added: bool)
        requires
            old(self).wf(),
        ensures
            final(self).wf(),
            added == !old(self)@.quotas.contains_key(user_id),
            final(self)@ == if added {
                LibraryView {
                    quotas: old(self)@.quotas.insert(user_id, max_borrowable),
                    ..old(self)@
                }
            } else {
                old(self)@
            },
    {
        if self.quotas.contains_key(&user_id) {
            return false;
        }
        proof {
            lemma_stranger_holds_nothing(self@, user_id);
        }
        self.quotas.insert(user_id, max_borrowable);
        proof {
            assert(final(self)@.entries_of_members()) by {
                assert forall|i: int|
                    0 <= i < self@.ledger.len() implies self@.quotas.contains_key(
                    (#[trigger] self@.ledger[i]).user_id,
                ) by {
                    assert(old(self)@.quotas.contains_key(old(self)@.ledger[i].user_id));
                }
            }
            assert(self@.quotas_respected()) by {
                assert forall|other: u128| #[trigger]
                    self@.quotas.contains_key(other) implies held_count(self@.ledger, other)
                    <= self@.quotas[other] by {
                    if other != user_id {
                        assert(old(self)@.quotas.contains_key(other));
                    }
                }
            }
        }
        true
    }

    /// Whether the catalog holds the book.
    pub fn book_exists(&self, book_id: u128) -> (exists: bool)
        ensures
            exists == self@.books.contains(book_id),
    {
        self.books.contains(&book_id)
    }

    /// Whether the user is registered.
    pub fn user_exists(&self, user_id: u128) -> (exists: bool)
        ensures
            exists == self@.quotas.contains_key(user_id),
    {
        self.quotas.contains_key(&user_id)
    }

    /// The number of books that the user may hold at once; zero for a user
    /// who is not registered.
    pub fn max_borrowable(&self, user_id: u128) -> (max: u32)
        ensures
            max == self@.max_borrowable(user_id),
    {
        match self.quotas.get(&user_id) {
            Some(max) => *max,
            None => 0,
        }
    }

    /// The newest ledger entry about the book.
    pub fn latest_event_for_book(&self, book_id: u128) -> (latest: Option<BookBorrowEntry>)
        ensures
            latest == latest_event(self@.ledger, book_id),
    {
        self.ledger.latest_event_for_book(book_id)
    }

    /// The number of books that the user holds now.
    pub fn count_currently_held(&self, user_id: u128) -> (count: u32)
        ensures
            count == saturated(held_count(self@.ledger, user_id)),
            self.wf() ==> count == held_count(self@.ledger, user_id),
            self.wf() ==> count <= self@.max_borrowable(user_id),
    {
        proof {
            if self.wf() {
                if self@.quotas.contains_key(user_id) {
                    assert(held_count(self@.ledger, user_id) <= self@.quotas[user_id]);
                } else {
                    lemma_stranger_holds_nothing(self@, user_id);
                }
            }
        }
        self.ledger.count_currently_held(user_id)
    }

    /// The ledger, to read.
    pub fn ledger(&self) -> (ledger: &Ledger)
        ensures
            ledger@ == self@.ledger,
    {
        &self.ledger
    }

    /// Writes what was decided, or reports why nothing is written.
    fn carry_out(&mut self, decision: LendingDecision, fresh_id: u128, timestamp: i64) -> (result:
        Result<(), LibraryError>)
        ensures
            (result, final(self)@) == old(self)@.commit(decision, fresh_id, timestamp),
    {
        match decision {
            LendingDecision::Rejected(reason) => Err(reason),
            LendingDecision::Permitted(pending) => {
                let entry = pending.complete(fresh_id, timestamp);
                match self.ledger.append(entry) {
                    Ok(()) => {
                        assert(final(self)@ =~= (LibraryView {
                            ledger: old(self)@.ledger.push(entry),
                            ..old(self)@
                        }));
                        Ok(())
                    },
                    Err(cause) => Err(LibraryError::DatabaseError(cause)),
                }
            },
        }
    }

    /// Handles a borrow request that is stamped with `fresh_id` and
    /// `timestamp`.
    ///
    /// The request is turned down, with the first reason that applies, for
    /// an unknown book, an unknown user, a user who holds as many books as
    /// allowed, and a book that is out. Otherwise one `Borrowed` entry is
    /// written, unless `timestamp` lies before the newest entry of the book:
    /// that is a database error. Whatever is reported as `Err` has changed
    /// nothing.
    pub fn borrow_book_at(
        &mut self,
        book_id: u128,
        user_id: u128,
        fresh_id: u128,
        timestamp: i64,
    ) -> (result: Result<(), LibraryError>)
        requires
            old(self).wf(),
        ensures
            final(self).wf(),
            (result, final(self)@) == old(self)@.borrow_step(
                book_id,
                user_id,
                fresh_id,
                timestamp,
            ),
    {
        let decision = validate_borrow(
            book_id,
            user_id,
            self.book_exists(book_id),
            self.user_exists(user_id),
            self.latest_event_for_book(book_id),
            self.count_currently_held(user_id),
            self.max_borrowable(user_id),
        );
        proof {
            lemma_borrow_step_consistent(self@, book_id, user_id, fresh_id, timestamp);
        }
        self.carry_out(decision, fresh_id, timestamp)
    }

    /// Handles a return request that is stamped with `fresh_id` and
    /// `timestamp`.
    ///
    /// The request is turned down, with the first reason that applies, for
    /// an unknown book, an unknown user, a book that is not out, and a book
    /// that another user holds. Otherwise one `Returned` entry is written
    /// under the identifier of the entry that lent the book, unless
    /// `timestamp` lies before that entry: that is a database error.
    /// Whatever is reported as `Err` has changed nothing.
    pub fn return_book_at(
        &mut self,
        book_id: u128,
        user_id: u128,
        fresh_id: u128,
        timestamp: i64,
    ) -> (result: Result<(), LibraryError>)
        requires
            old(self).wf(),
        ensures
            final(self).wf(),
            (result, final(self)@) == old(self)@.return_step(
                book_id,
                user_id,
                fresh_id,
                timestamp,
            ),
    {
        let decision = validate_return(
            book_id,
            user_id,
            self.book_exists(book_id),
            self.user_exists(user_id),
            self.latest_event_for_book(book_id),
        );
        proof {
            lemma_return_step_consistent(self@, book_id, user_id, fresh_id, timestamp);
        }
        self.carry_out(decision, fresh_id, timestamp)
    }

    /// Handles a borrow request now: as `borrow_book_at`, with an
    /// identifier made for the entry and the time read from the clock.
    ///
    /// A request that the rules turn down is turned down whatever the clock
    /// says, and changes nothing.
    pub fn borrow_book(&mut self, book_id: u128, user_id: u128) -> (result: Result<
        (),
        LibraryError,
    >)
        requires
            old(self).wf(),
        ensures
            final(self).wf(),
            exists|fresh_id: u128, timestamp: i64|
                (result, final(self)@) == #[trigger] old(self)@.borrow_step(
                    book_id,
                    user_id,
                    fresh_id,
                    timestamp,
                ),
            old(self)@.decide_borrow(book_id, user_id) matches LendingDecision::Rejected(reason)
                ==> result == Err::<(), LibraryError>(reason) && final(self)@ == old(self)@,
    {
        let fresh_id = fresh_entry_id();
        let timestamp = current_timestamp();
        self.borrow_book_at(book_id, user_id, fresh_id, timestamp)
    }

    /// Handles a return request now: as `return_book_at`, with the time
    /// read from the clock.
    ///
    /// A request that the rules turn down is turned down whatever the clock
    /// says, and changes nothing.
    pub fn return_book(&mut self, book_id: u128, user_id: u128) -> (result: Result<
        (),
        LibraryError,
    >)
        requires
            old(self).wf(),
        ensures
            final(self).wf(),
            exists|fresh_id: u128, timestamp: i64|
                (result, final(self)@) == #[trigger] old(self)@.return_step(
                    book_id,
                    user_id,
                    fresh_id,
                    timestamp,
                ),
            old(self)@.decide_return(book_id, user_id) matches LendingDecision::Rejected(reason)
                ==> result == Err::<(), LibraryError>(reason) && final(self)@ == old(self)@,
    {
        let fresh_id = fresh_entry_id();
        let timestamp = current_timestamp();
        self.return_book_at(book_id, user_id, fresh_id, timestamp)
    }
}

} // verus!
