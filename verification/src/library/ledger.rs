//! The lending ledger: an append-only history of borrow and return events
//! from which the present state of every book is derived.
//!
//! The newest entry of a book, by timestamp, is the book's present state; of
//! two entries with the same timestamp the one appended later is the newer.
//! A book without entries is available.

use vstd::prelude::*;
use crate::library::error::StorageError;
use crate::library::model::{BookBorrowEntry, BookBorrowState};

verus! {

/// Whether entry `j` of `log` is about the same book as entry `i` and newer:
/// a greater timestamp, or the same timestamp and appended later.
pub open spec fn supersedes(log: Seq<BookBorrowEntry>, j: int, i: int) -> bool {
    &&& log[j].book_id == log[i].book_id
    &&& (log[j].timestamp > log[i].timestamp || (log[j].timestamp == log[i].timestamp && j > i))
}

/// Whether entry `i` of `log` is about `book_id` and no entry supersedes it.
pub open spec fn newest_at(log: Seq<BookBorrowEntry>, book_id: u128, i: int) -> bool {
    &&& 0 <= i < log.len()
    &&& log[i].book_id == book_id
    &&& forall|j: int| 0 <= j < log.len() ==> !#[trigger] supersedes(log, j, i)
}

/// Whether `log` holds an entry about `book_id` among its first `n`.
pub open spec fn mentioned_before(log: Seq<BookBorrowEntry>, book_id: u128, n: int) -> bool {
    exists|j: int| 0 <= j < n && j < log.len() && #[trigger] log[j].book_id == book_id
}

/// The newest entry about `book_id`, or `None` where the log has none.
///
/// Read from the front of the log to its end, each entry about the book
/// replaces the one kept so far unless that one has a greater timestamp.
pub open spec fn latest_event(log: Seq<BookBorrowEntry>, book_id: u128) -> Option<
    BookBorrowEntry,
>
    decreases log.len(),
{
    if log.len() == 0 {
        None
    } else {
        let last = log.last();
        let before = latest_event(log.drop_last(), book_id);
        if last.book_id != book_id {
            before
        } else if before is Some && before->0.timestamp > last.timestamp {
            before
        } else {
            Some(last)
        }
    }
}

/// The user who holds `book_id` now, or `None` where the book is available.
pub open spec fn holder(log: Seq<BookBorrowEntry>, book_id: u128) -> Option<u128> {
    match latest_event(log, book_id) {
        Some(entry) => if entry.state == BookBorrowState::Borrowed {
            Some(entry.user_id)
        } else {
            None
        },
        None => None,
    }
}

/// The books that `user_id` holds now.
pub open spec fn held_books(log: Seq<BookBorrowEntry>, user_id: u128) -> Set<u128> {
    Set::new(|book_id: u128| holder(log, book_id) == Some(user_id))
}

/// How many books `user_id` holds now.
pub open spec fn held_count(log: Seq<BookBorrowEntry>, user_id: u128) -> nat {
    held_books(log, user_id).len()
}

/// Whether the ledger takes `entry` after `log`: the entry is not older than
/// the newest entry that `log` holds about the same book.
pub open spec fn accepts(log: Seq<BookBorrowEntry>, entry: BookBorrowEntry) -> bool {
    match latest_event(log, entry.book_id) {
        Some(latest) => latest.timestamp <= entry.timestamp,
        None => true,
    }
}

/// Whether the entries of each book stand in `log` in the order of their
/// timestamps.
pub open spec fn chronological(log: Seq<BookBorrowEntry>) -> bool {
    forall|i: int, j: int|
        0 <= i < j < log.len() && #[trigger] log[i].book_id == #[trigger] log[j].book_id
            ==> log[i].timestamp <= log[j].timestamp
}

/// `latest_event` finds the entry that no other supersedes, and finds
/// nothing only where the log does not mention the book.
pub proof fn lemma_latest_event_is_newest(log: Seq<BookBorrowEntry>, book_id: u128)
    ensures
        match latest_event(log, book_id) {
            Some(entry) => exists|i: int| #[trigger] newest_at(log, book_id, i) && log[i] == entry,
            None => !mentioned_before(log, book_id, log.len() as int),
        },
    decreases log.len(),
{
    if log.len() > 0 {
        let front = log.drop_last();
        let last = log.last();
        let end = log.len() - 1;
        lemma_latest_event_is_newest(front, book_id);
        assert forall|j: int| 0 <= j < end implies log[j] == front[j] by {}
        match latest_event(front, book_id) {
            Some(kept) => {
                let k = choose|i: int| #[trigger] newest_at(front, book_id, i) && front[i] == kept;
                if last.book_id != book_id || kept.timestamp > last.timestamp {
                    assert forall|j: int| 0 <= j < log.len() implies !#[trigger] supersedes(
                        log,
                        j,
                        k,
                    ) by {
                        if j < end {
                            assert(!supersedes(front, j, k));
                        }
                    }
                    assert(newest_at(log, book_id, k));
                } else {
                    assert forall|j: int| 0 <= j < log.len() implies !#[trigger] supersedes(
                        log,
                        j,
                        end,
                    ) by {
                        if j < end && log[j].book_id == book_id {
                            assert(!supersedes(front, j, k));
                            assert(!supersedes(front, k, j) || j != k);
                        }
                    }
                    assert(newest_at(log, book_id, end));
                }
            },
            None => {
                if last.book_id == book_id {
                    assert forall|j: int| 0 <= j < log.len() implies !#[trigger] supersedes(
                        log,
                        j,
                        end,
                    ) by {
                        if j < end && log[j].book_id == book_id {
                            assert(front[j].book_id == book_id);
                            assert(mentioned_before(front, book_id, front.len() as int));
                        }
                    }
                    assert(newest_at(log, book_id, end));
                } else {
                    if mentioned_before(log, book_id, log.len() as int) {
                        let j = choose|j: int|
                            0 <= j < log.len() && #[trigger] log[j].book_id == book_id;
                        assert(front[j].book_id == book_id);
                        assert(mentioned_before(front, book_id, front.len() as int));
                    }
                }
            },
        }
    }
}

/// After an accepted entry, that entry is the newest of its book, and the
/// newest entry of every other book is what it was.
pub proof fn lemma_latest_event_after_append(
    log: Seq<BookBorrowEntry>,
    entry: BookBorrowEntry,
    book_id: u128,
)
    requires
        accepts(log, entry),
    ensures
        latest_event(log.push(entry), book_id) == if book_id == entry.book_id {
            Some(entry)
        } else {
            latest_event(log, book_id)
        },
{
    assert(log.push(entry).drop_last() =~= log);
    assert(log.push(entry).last() == entry);
}

/// An accepted entry keeps a chronological log chronological.
pub proof fn lemma_append_keeps_chronological(log: Seq<BookBorrowEntry>, entry: BookBorrowEntry)
    requires
        chronological(log),
        accepts(log, entry),
    ensures
        chronological(log.push(entry)),
{
    let after = log.push(entry);
    lemma_latest_event_is_newest(log, entry.book_id);
    assert forall|i: int, j: int|
        0 <= i < j < after.len() && #[trigger] after[i].book_id == #[trigger] after[j].book_id
        implies after[i].timestamp <= after[j].timestamp by {
        if j == log.len() {
            assert(log[i].book_id == entry.book_id);
            assert(mentioned_before(log, entry.book_id, log.len() as int));
            let latest = latest_event(log, entry.book_id)->0;
            let k = choose|k: int| #[trigger] newest_at(log, entry.book_id, k) && log[k] == latest;
            assert(!supersedes(log, i, k));
        } else {
            assert(log[i].book_id == log[j].book_id);
        }
    }
}

/// A user holds no more books than the log has entries.
pub proof fn lemma_held_books_finite(log: Seq<BookBorrowEntry>, user_id: u128)
    ensures
        held_books(log, user_id).finite(),
        held_count(log, user_id) <= log.len(),
{
    let books = log.map_values(|entry: BookBorrowEntry| entry.book_id);
    let held = held_books(log, user_id);
    assert forall|book_id: u128| held.contains(book_id) implies books.to_set().contains(
        book_id,
    ) by {
        lemma_latest_event_is_newest(log, book_id);
        let j = choose|j: int| 0 <= j < log.len() && #[trigger] log[j].book_id == book_id;
        assert(books[j] == book_id);
    }
    vstd::seq_lib::seq_to_set_is_finite(books);
    books.lemma_cardinality_of_set();
    vstd::set_lib::lemma_len_subset(held, books.to_set());
}

/// `n` as a `u32`, with `u32::MAX` for every number above it.
pub open spec fn saturated(n: nat) -> u32 {
    if n <= u32::MAX {
        n as u32
    } else {
        u32::MAX
    }
}

/// An accepted entry changes what a user holds by its own book alone: the
/// book is added where the entry lends it to that user, and taken away in
/// every other case.
pub proof fn lemma_held_books_after_append(
    log: Seq<BookBorrowEntry>,
    entry: BookBorrowEntry,
    user_id: u128,
)
    requires
        accepts(log, entry),
    ensures
        held_books(log.push(entry), user_id) == if entry.state == BookBorrowState::Borrowed
            && entry.user_id == user_id {
            held_books(log, user_id).insert(entry.book_id)
        } else {
            held_books(log, user_id).remove(entry.book_id)
        },
{
    let after = held_books(log.push(entry), user_id);
    let stated = if entry.state == BookBorrowState::Borrowed && entry.user_id == user_id {
        held_books(log, user_id).insert(entry.book_id)
    } else {
        held_books(log, user_id).remove(entry.book_id)
    };
    assert forall|book_id: u128| after.contains(book_id) == stated.contains(book_id) by {
        lemma_latest_event_after_append(log, entry, book_id);
    }
    assert(after =~= stated);
}

/// An accepted entry changes the number of books that a user holds by one
/// at most, and only where it changes who holds its book.
pub proof fn lemma_held_count_after_append(
    log: Seq<BookBorrowEntry>,
    entry: BookBorrowEntry,
    user_id: u128,
)
    requires
        accepts(log, entry),
    ensures
        entry.state == BookBorrowState::Borrowed && entry.user_id == user_id ==> held_count(
            log.push(entry),
            user_id,
        ) == held_count(log, user_id) + if holder(log, entry.book_id) == Some(user_id) {
            0nat
        } else {
            1nat
        },
        !(entry.state == BookBorrowState::Borrowed && entry.user_id == user_id) ==> held_count(
            log,
            user_id,
        ) == held_count(log.push(entry), user_id) + if holder(log, entry.book_id) == Some(
            user_id,
        ) {
            1nat
        } else {
            0nat
        },
{
    lemma_held_books_after_append(log, entry, user_id);
    lemma_held_books_finite(log, user_id);
}

/// The lending ledger.
#[derive(Clone, Debug)]
pub struct Ledger {
    entries: Vec<BookBorrowEntry>,
}

impl View for Ledger {
    type V = Seq<BookBorrowEntry>;

    closed spec fn view(&self) -> Seq<BookBorrowEntry> {
        self.entries@
    }
}

impl Ledger {
    /// A ledger without entries.
    pub fn new() -> (ledger: Self)
        ensures
            ledger@ == Seq::<BookBorrowEntry>::empty(),
    {
        Ledger { entries: Vec::new() }
    }

    /// The number of entries.
    pub fn len(&self) -> (n: usize)
        ensures
            n == self@.len(),
    {
        self.entries.len()
    }

    /// The entry at `index`, counted from the oldest append, or `None` past
    /// the end.
    pub fn get(&self, index: usize) -> (entry: Option<BookBorrowEntry>)
        ensures
            entry == if index < self@.len() {
                Some(self@[index as int])
            } else {
                None
            },
    {
        if index < self.entries.len() {
            Some(self.entries[index])
        } else {
            None
        }
    }

    /// Stores `entry` behind all entries stored before. The entry is turned
    /// down, and the ledger left as it was, where it is older than the newest
    /// entry of its book; once stored it is the newest entry of its book.
    pub fn append(&mut self, entry: BookBorrowEntry) -> (stored: Result<(), StorageError>)
        ensures
            accepts(old(self)@, entry) ==> stored == Ok::<(), StorageError>(()) && final(self)@
                == old(self)@.push(entry),
            !accepts(old(self)@, entry) ==> stored == Err::<(), StorageError>(
                StorageError::OutOfOrder,
            ) && final(self)@ == old(self)@,
            stored is Ok ==> latest_event(final(self)@, entry.book_id) == Some(entry),
            chronological(old(self)@) ==> chronological(final(self)@),
    {
        let in_order = match self.latest_event_for_book(entry.book_id) {
            Some(latest) => latest.timestamp <= entry.timestamp,
            None => true,
        };
        if in_order {
            proof {
                lemma_latest_event_after_append(self@, entry, entry.book_id);
                if chronological(self@) {
                    lemma_append_keeps_chronological(self@, entry);
                }
            }
            self.entries.push(entry);
            Ok(())
        } else {
            Err(StorageError::OutOfOrder)
        }
    }

    /// The newest entry about `book_id`, or `None` where the book was never
    /// borrowed.
    pub fn latest_event_for_book(&self, book_id: u128) -> (latest: Option<BookBorrowEntry>)
        ensures
            latest == latest_event(self@, book_id),
    {
        let mut latest: Option<BookBorrowEntry> = None;
        let mut i: usize = 0;
        while i < self.entries.len()
            invariant
                i <= self.entries@.len(),
                latest == latest_event(self.entries@.take(i as int), book_id),
            decreases self.entries@.len() - i,
        {
            let entry = self.entries[i];
            proof {
                let upto = self.entries@.take(i as int + 1);
                assert(upto.drop_last() =~= self.entries@.take(i as int));
                assert(upto.last() == entry);
            }
            if entry.book_id == book_id {
                let older = match latest {
                    Some(kept) => kept.timestamp > entry.timestamp,
                    None => false,
                };
                if !older {
                    latest = Some(entry);
                }
            }
            i += 1;
        }
        assert(self.entries@.take(i as int) =~= self.entries@);
        latest
    }

    /// Whether one of the first `n` entries is about `book_id`.
    fn mentions_before(&self, book_id: u128, n: usize) -> (found: bool)
        requires
            n <= self@.len(),
        ensures
            found == mentioned_before(self@, book_id, n as int),
    {
        let mut j: usize = 0;
        while j < n
            invariant
                j <= n <= self.entries@.len(),
                !mentioned_before(self.entries@, book_id, j as int),
            decreases n - j,
        {
            if self.entries[j].book_id == book_id {
                return true;
            }
            j += 1;
        }
        false
    }

    /// The number of books that `user_id` holds now, derived from the
    /// entries alone. A number above `u32::MAX` is reported as `u32::MAX`.
    pub fn count_currently_held(&self, user_id: u128) -> (count: u32)
        ensures
            count == saturated(held_count(self@, user_id)),
    {
        let n = self.entries.len();
        let mut held: usize = 0;
        let ghost mut counted: Set<u128> = Set::empty();
        let mut i: usize = 0;
        while i < n
            invariant
                i <= n,
                n == self.entries@.len(),
                counted.finite(),
                counted.len() == held,
                held <= i,
                forall|book_id: u128|
                    counted.contains(book_id) <==> (held_books(self@, user_id).contains(book_id)
                        && mentioned_before(self@, book_id, i as int)),
            decreases n - i,
        {
            let book_id = self.entries[i].book_id;
            if !self.mentions_before(book_id, i) {
                let state = self.latest_event_for_book(book_id);
                let holds = match state {
                    Some(latest) => latest.state == BookBorrowState::Borrowed && latest.user_id
                        == user_id,
                    None => false,
                };
                if holds {
                    held += 1;
                    proof {
                        counted = counted.insert(book_id);
                    }
                }
            }
            proof {
                assert forall|other: u128|
                    counted.contains(other) <==> (held_books(self@, user_id).contains(other)
                        && mentioned_before(self@, other, i as int + 1)) by {
                    if mentioned_before(self@, other, i as int + 1) {
                        let j = choose|j: int|
                            0 <= j < i as int + 1 && j < self@.len() && #[trigger] self@[j].book_id
                                == other;
                        if j < i {
                            assert(mentioned_before(self@, other, i as int));
                        }
                    }
                    if mentioned_before(self@, other, i as int) {
                        let j = choose|j: int|
                            0 <= j < i as int && j < self@.len() && #[trigger] self@[j].book_id
                                == other;
                        assert(0 <= j < i as int + 1);
                    }
                    if other == book_id {
                        assert(self@[i as int].book_id == other);
                    }
                }
            }
            i += 1;
        }
        proof {
            assert forall|book_id: u128| held_books(self@, user_id).contains(book_id) implies
                mentioned_before(self@, book_id, n as int) by {
                lemma_latest_event_is_newest(self@, book_id);
            }
            assert(counted =~= held_books(self@, user_id));
        }
        if held > 0xffff_ffff {
            u32::MAX
        } else {
            held as u32
        }
    }
}

} // verus!
