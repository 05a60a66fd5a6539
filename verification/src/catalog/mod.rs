//! The catalog: books and authors as the service records them.

pub mod error;
pub mod model;
pub mod query;
