//! Why a change to the catalog did not go through.

use vstd::prelude::*;
use vstd::string::StringExecFns;
use crate::error::{BadRequest, Error, ErrorResponse, ServerIssue};

verus! {

#[derive(Copy, Clone, Debug, PartialEq, Eq, Structural)]
pub enum CatalogError {
    /// The store failed; a fault of the service.
    DatabaseError,
    /// The request names an author whom the catalog does not hold.
    AuthorNotFound,
}

impl CatalogError {
    /// The message of this failure.
    pub open spec fn text(self) -> Seq<char> {
        match self {
            CatalogError::DatabaseError => "there was an error in accessing the database"@,
            CatalogError::AuthorNotFound => "author does not exist in catalog"@,
        }
    }

    /// The failure as the client sees it: a server issue for a failing
    /// store, a bad request for an unknown author.
    pub open spec fn client_error(self) -> Error {
        match self {
            CatalogError::DatabaseError => Error::ServerIssue(ServerIssue {  }),
            CatalogError::AuthorNotFound => Error::BadRequest(BadRequest {  }),
        }
    }

    /// The message of this failure.
    pub fn to_string(&self) -> (message: String)
        ensures
            message@ == self.text(),
    {
        match self {
            CatalogError::DatabaseError => String::from_str(
                "there was an error in accessing the database",
            ),
            CatalogError::AuthorNotFound => String::from_str("author does not exist in catalog"),
        }
    }

    /// Maps the failure to what the client sees.
    pub fn to_error(&self) -> (error: Error)
        ensures
            error == self.client_error(),
    {
        match self {
            CatalogError::DatabaseError => Error::server_issue(),
            CatalogError::AuthorNotFound => Error::bad_request(),
        }
    }

    /// The response for this failure. An unknown author is answered with
    /// the message of this failure; a failing store is answered with the
    /// general message of a server issue.
    pub fn response(&self) -> (response: ErrorResponse)
        ensures
            response.status == self.client_error().status(),
            response.code == self.client_error().code(),
            response.message@ == match self {
                CatalogError::DatabaseError => ServerIssue::text(),
                CatalogError::AuthorNotFound => self.text(),
            },
    {
        let error = self.to_error();
        match self {
            CatalogError::DatabaseError => error.response(),
            CatalogError::AuthorNotFound => error.response_with(self.to_string()),
        }
    }
}

} // verus!
