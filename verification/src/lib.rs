//! Lending ledger and validation engine of a library-management service.
//!
//! The crate decides whether a borrow or a return is legal and derives which
//! books are on loan, and to whom, from an append-only history of events.
//! Every function carries a contract that is proved against its body.

pub mod catalog;
pub mod decimal;
pub mod error;
pub mod library;
pub mod users;
