//! What holds of the lending service over more than one request. Each law is
//! stated over the states and steps of `LibraryView`, which the contracts of
//! `Library::borrow_book_at` and `Library::return_book_at` tie to the code.

use vstd::prelude::*;
use crate::library::error::LibraryError;
use crate::library::ledger::{
    accepts,
    chronological,
    held_books,
    held_count,
    holder,
    latest_event,
    lemma_held_books_after_append,
    lemma_held_books_finite,
    lemma_latest_event_after_append,
    lemma_latest_event_is_newest,
    mentioned_before,
    newest_at,
    saturated,
    supersedes,
};
use crate::library::model::{BookBorrowEntry, BookBorrowState};
use crate::library::service::{
    lemma_borrow_step_consistent,
    lemma_return_step_consistent,
    LibraryView,
};

verus! {

/// Whether a request borrows or returns.
pub enum RequestKind {
    Borrow,
    Return,
}

/// One request as the service handles it: what is asked, and the identifier
/// and the time with which an entry for it would be written.
pub struct Request {
    pub kind: RequestKind,
    pub book_id: u128,
    pub user_id: u128,
    pub fresh_id: u128,
    pub timestamp: i64,
}

/// The state after one request.
pub open spec fn after_request(view: LibraryView, request: Request) -> LibraryView {
    match request.kind {
        RequestKind::Borrow => view.borrow_step(
            request.book_id,
            request.user_id,
            request.fresh_id,
            request.timestamp,
        ).1,
        RequestKind::Return => view.return_step(
            request.book_id,
            request.user_id,
            request.fresh_id,
            request.timestamp,
        ).1,
    }
}

/// The state after a sequence of requests, handled one after the other.
pub open spec fn after_requests(view: LibraryView, requests: Seq<Request>) -> LibraryView
    decreases requests.len(),
{
    if requests.len() == 0 {
        view
    } else {
        after_request(after_requests(view, requests.drop_last()), requests.last())
    }
}

/// Derived state. In a ledger whose entries stand, book by book, in the
/// order of their timestamps, which is every ledger that the service can
/// reach, the present state of a book is the entry appended last for it.
pub proof fn law_latest_is_last_appended(
    log: Seq<BookBorrowEntry>,
    book_id: u128,
    i: int,
)
    requires
        chronological(log),
        0 <= i < log.len(),
        log[i].book_id == book_id,
        forall|j: int| i < j < log.len() ==> (#[trigger] log[j]).book_id != book_id,
    ensures
        latest_event(log, book_id) == Some(log[i]),
{
    lemma_latest_event_is_newest(log, book_id);
    assert(mentioned_before(log, book_id, log.len() as int));
    let latest = latest_event(log, book_id)->0;
    let k = choose|k: int| #[trigger] newest_at(log, book_id, k) && log[k] == latest;
    if k < i {
        assert(log[k].book_id == log[i].book_id);
        assert(!supersedes(log, i, k));
    } else if k > i {
        assert(log[k].book_id == book_id);
    }
}

/// No double borrow. Of two borrow requests for the same book, handled one
/// after the other, at most one is granted. The first is granted where the
/// book is known and available, its user is registered and holds fewer
/// books than allowed, and its time is not before the newest entry of the
/// book. Once the first is granted the second writes nothing, and a
/// registered user is told that the book is out, or, where that user
/// already holds as many books as allowed, that the allowance is used up.
pub proof fn law_no_double_borrow(
    view: LibraryView,
    book_id: u128,
    first_user: u128,
    first_id: u128,
    first_time: i64,
    second_user: u128,
    second_id: u128,
    second_time: i64,
)
    ensures
        ({
            let (first, between) = view.borrow_step(book_id, first_user, first_id, first_time);
            let (second, after) = between.borrow_step(
                book_id,
                second_user,
                second_id,
                second_time,
            );
            &&& !(first is Ok && second is Ok)
            &&& view.books.contains(book_id) && view.quotas.contains_key(first_user) && saturated(
                held_count(view.ledger, first_user),
            ) < view.quotas[first_user] && holder(view.ledger, book_id) is None && accepts(
                view.ledger,
                view.decide_borrow(book_id, first_user)->Permitted_0.completed(
                    first_id,
                    first_time,
                ),
            ) ==> first is Ok
            &&& first is Ok ==> after == between
            &&& first is Ok && between.quotas.contains_key(second_user) ==> second == Err::<
                (),
                LibraryError,
            >(
                if saturated(held_count(between.ledger, second_user)) >= between.quotas[second_user] {
                    LibraryError::NumBorrowableExceeded(between.quotas[second_user])
                } else {
                    LibraryError::BookAlreadyBorrowed
                },
            )
        }),
{
    let (first, between) = view.borrow_step(book_id, first_user, first_id, first_time);
    if first is Ok {
        let entry = view.decide_borrow(book_id, first_user)->Permitted_0.completed(
            first_id,
            first_time,
        );
        lemma_latest_event_after_append(view.ledger, entry, book_id);
    }
}

/// Quota enforcement at the start. A service whose ledger is empty is in a
/// state that it can reach, whatever its books and allowances: nobody holds
/// anything.
pub proof fn law_empty_ledger_consistent(books: Set<u128>, quotas: Map<u128, u32>)
    ensures
        (LibraryView { books, quotas, ledger: Seq::<BookBorrowEntry>::empty() }).consistent(),
{
    let view = LibraryView { books, quotas, ledger: Seq::<BookBorrowEntry>::empty() };
    assert forall|user_id: u128| #[trigger] view.quotas.contains_key(user_id) implies held_count(
        view.ledger,
        user_id,
    ) <= view.quotas[user_id] by {
        lemma_held_books_finite(view.ledger, user_id);
    }
}

/// Quota enforcement. Whatever requests are handled, granted or not, the
/// state stays one that the service can reach, with the same books and the
/// same allowances, and no registered user holds more books than allowed.
pub proof fn law_quota_enforced_after_requests(view: LibraryView, requests: Seq<Request>)
    requires
        view.consistent(),
    ensures
        after_requests(view, requests).consistent(),
        after_requests(view, requests).books == view.books,
        after_requests(view, requests).quotas == view.quotas,
        forall|user_id: u128| #[trigger]
            view.quotas.contains_key(user_id) ==> held_count(
                after_requests(view, requests).ledger,
                user_id,
            ) <= view.quotas[user_id],
    decreases requests.len(),
{
    if requests.len() > 0 {
        law_quota_enforced_after_requests(view, requests.drop_last());
        let before = after_requests(view, requests.drop_last());
        let request = requests.last();
        match request.kind {
            RequestKind::Borrow => lemma_borrow_step_consistent(
                before,
                request.book_id,
                request.user_id,
                request.fresh_id,
                request.timestamp,
            ),
            RequestKind::Return => lemma_return_step_consistent(
                before,
                request.book_id,
                request.user_id,
                request.fresh_id,
                request.timestamp,
            ),
        }
    }
    let after = after_requests(view, requests);
    assert forall|user_id: u128| #[trigger] view.quotas.contains_key(user_id) implies held_count(
        after.ledger,
        user_id,
    ) <= view.quotas[user_id] by {
        assert(after.quotas.contains_key(user_id));
    }
}

/// Return symmetry. After a granted borrow, a return of the same book by
/// the same user, stamped no earlier than the borrow, is granted. The book
/// is then available, every user holds the books held before the borrow,
/// and a further borrow of the book, stamped no earlier than the return, is
/// granted to every registered user who holds fewer books than allowed.
pub proof fn law_return_symmetry(
    view: LibraryView,
    book_id: u128,
    user_id: u128,
    borrow_id: u128,
    borrow_time: i64,
    return_id: u128,
    return_time: i64,
    next_user: u128,
    next_id: u128,
    next_time: i64,
)
    requires
        view.borrow_step(book_id, user_id, borrow_id, borrow_time).0 is Ok,
        borrow_time <= return_time,
    ensures
        ({
            let lent = view.borrow_step(book_id, user_id, borrow_id, borrow_time).1;
            let (returned, back) = lent.return_step(book_id, user_id, return_id, return_time);
            &&& returned is Ok
            &&& holder(back.ledger, book_id) is None
            &&& latest_event(back.ledger, book_id) is Some
            &&& latest_event(back.ledger, book_id)->0.state == BookBorrowState::Returned
            &&& forall|other: u128| #[trigger]
                held_books(back.ledger, other) == held_books(view.ledger, other)
            &&& back.quotas.contains_key(next_user) && saturated(
                held_count(back.ledger, next_user),
            ) < back.quotas[next_user] && return_time <= next_time ==> back.borrow_step(
                book_id,
                next_user,
                next_id,
                next_time,
            ).0 is Ok
        }),
{
    let lent = view.borrow_step(book_id, user_id, borrow_id, borrow_time).1;
    let borrowed = view.decide_borrow(book_id, user_id)->Permitted_0.completed(
        borrow_id,
        borrow_time,
    );
    lemma_latest_event_after_append(view.ledger, borrowed, book_id);
    let (returned, back) = lent.return_step(book_id, user_id, return_id, return_time);
    let given_back = lent.decide_return(book_id, user_id)->Permitted_0.completed(
        return_id,
        return_time,
    );
    lemma_latest_event_after_append(lent.ledger, given_back, book_id);
    assert forall|other: u128| #[trigger]
        held_books(back.ledger, other) == held_books(view.ledger, other) by {
        lemma_held_books_after_append(view.ledger, borrowed, other);
        lemma_held_books_after_append(lent.ledger, given_back, other);
        assert(held_books(back.ledger, other) =~= held_books(view.ledger, other));
    }
}

/// Returner identity. A return by a user who does not hold the book is
/// never granted and writes nothing. Where book and user are known and
/// someone else holds the book, the user is told that the book was not
/// borrowed by them.
pub proof fn law_returner_identity(
    view: LibraryView,
    book_id: u128,
    user_id: u128,
    fresh_id: u128,
    timestamp: i64,
)
    requires
        holder(view.ledger, book_id) != Some(user_id),
    ensures
        view.return_step(book_id, user_id, fresh_id, timestamp).0 is Err,
        view.return_step(book_id, user_id, fresh_id, timestamp).1 == view,
        view.books.contains(book_id) && view.quotas.contains_key(user_id) && holder(
            view.ledger,
            book_id,
        ) is Some ==> view.return_step(book_id, user_id, fresh_id, timestamp).0 == Err::<
            (),
            LibraryError,
        >(LibraryError::BookNotBorrowedByUser),
{
}

/// Idempotent unavailability. Where a known user returns a known book that
/// is not out, the request is turned down as already returned and writes
/// nothing, so the state is the same for the next attempt.
pub proof fn law_return_of_available_book(
    view: LibraryView,
    book_id: u128,
    user_id: u128,
    fresh_id: u128,
    timestamp: i64,
)
    requires
        view.books.contains(book_id),
        view.quotas.contains_key(user_id),
        holder(view.ledger, book_id) is None,
    ensures
        view.return_step(book_id, user_id, fresh_id, timestamp) == (
            Err::<(), LibraryError>(LibraryError::BookAlreadyReturned),
            view,
        ),
{
}

/// Whether every request of `requests` is a return of `book_id` by a
/// registered user.
pub open spec fn all_return(view: LibraryView, requests: Seq<Request>, book_id: u128) -> bool {
    forall|i: int|
        0 <= i < requests.len() ==> (#[trigger] requests[i]).kind is Return && requests[i].book_id
            == book_id && view.quotas.contains_key(requests[i].user_id)
}

/// Idempotent unavailability, repeated. However often registered users try
/// to return a known book that is not out, nothing is written: the ledger
/// after all attempts is the ledger before the first.
pub proof fn law_repeated_returns_write_nothing(
    view: LibraryView,
    requests: Seq<Request>,
    book_id: u128,
)
    requires
        view.books.contains(book_id),
        holder(view.ledger, book_id) is None,
        all_return(view, requests, book_id),
    ensures
        after_requests(view, requests) == view,
    decreases requests.len(),
{
    if requests.len() > 0 {
        let front = requests.drop_last();
        assert forall|i: int| 0 <= i < front.len() implies (#[trigger] front[i]).kind is Return
            && front[i].book_id == book_id && view.quotas.contains_key(front[i].user_id) by {
            assert(front[i] == requests[i]);
        }
        law_repeated_returns_write_nothing(view, front, book_id);
        let request = requests.last();
        assert(request == requests[requests.len() - 1]);
        law_return_of_available_book(
            view,
            book_id,
            request.user_id,
            request.fresh_id,
            request.timestamp,
        );
    }
}

} // verus!
