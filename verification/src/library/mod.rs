//! Lending: the ledger of borrow and return events, the rules that decide a
//! request, and the service that applies them.

pub mod error;
pub mod laws;
pub mod ledger;
pub mod model;
pub mod service;
pub mod stamp;
pub mod validator;
