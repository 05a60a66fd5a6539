//! Why a borrow or a return did not go through.

use vstd::prelude::*;
use vstd::string::StringExecFns;
use crate::decimal::{decimal, decimal_string};
use crate::error::{BadRequest, Error, ErrorResponse, ServerIssue};

verus! {

/// Why the ledger refused to store an entry.
#[derive(Copy, Clone, Debug, PartialEq, Eq, Structural)]
pub enum StorageError {
    /// The entry is older than the newest entry already stored for its book.
    OutOfOrder,
}

/// Why a request was turned down. All but `DatabaseError` are the client's
/// doing; `DatabaseError` is a fault of the service.
#[derive(Copy, Clone, Debug, PartialEq, Eq, Structural)]
pub enum LibraryError {
    DatabaseError(StorageError),
    UserNotExists,
    BookNotExists,
    ResourceNotExists,
    BookAlreadyBorrowed,
    BookAlreadyReturned,
    BookNotBorrowedByUser,
    /// The user already holds as many books as the role allows; the number
    /// is that allowance.
    NumBorrowableExceeded(u32),
}

impl LibraryError {
    /// The message of this failure.
    pub open spec fn text(self) -> Seq<char> {
        match self {
            LibraryError::DatabaseError(_) => "there was an error in accessing the database"@,
            LibraryError::UserNotExists => "user does not exist"@,
            LibraryError::BookNotExists => "book does not exist"@,
            LibraryError::ResourceNotExists => "either user or book does not exist"@,
            LibraryError::BookAlreadyBorrowed => "book has already been borrowed"@,
            LibraryError::BookAlreadyReturned => "book has already been returned"@,
            LibraryError::BookNotBorrowedByUser => "book was not borrowed by given user"@,
            LibraryError::NumBorrowableExceeded(max) => {
                "user has reached max num of borrowable books (max: "@ + decimal(max as nat)
                    + ")"@
            },
        }
    }

    /// Whether the service, not the client, is at fault.
    pub open spec fn is_server_fault(self) -> bool {
        self is DatabaseError
    }

    /// The failure as the client sees it: a server issue for a fault of the
    /// service, a bad request for everything else.
    pub open spec fn client_error(self) -> Error {
        if self.is_server_fault() {
            Error::ServerIssue(ServerIssue {  })
        } else {
            Error::BadRequest(BadRequest {  })
        }
    }

    /// The message of this failure.
    pub fn to_string(&self) -> (message: String)
        ensures
            message@ == self.text(),
    {
        match self {
            LibraryError::DatabaseError(_) => String::from_str(
                "there was an error in accessing the database",
            ),
            LibraryError::UserNotExists => String::from_str("user does not exist"),
            LibraryError::BookNotExists => String::from_str("book does not exist"),
            LibraryError::ResourceNotExists => String::from_str(
                "either user or book does not exist",
            ),
            LibraryError::BookAlreadyBorrowed => String::from_str(
                "book has already been borrowed",
            ),
            LibraryError::BookAlreadyReturned => String::from_str(
                "book has already been returned",
            ),
            LibraryError::BookNotBorrowedByUser => String::from_str(
                "book was not borrowed by given user",
            ),
            LibraryError::NumBorrowableExceeded(max) => {
                let mut message = String::from_str(
                    "user has reached max num of borrowable books (max: ",
                );
                let number = decimal_string(*max);
                message.append(number.as_str());
                message.append(")");
                message
            },
        }
    }

    /// Maps the failure to what the client sees.
    pub fn to_error(&self) -> (error: Error)
        ensures
            error == self.client_error(),
    {
        match self {
            LibraryError::DatabaseError(_) => Error::server_issue(),
            _ => Error::bad_request(),
        }
    }

    /// The response for this failure. A rejected request is answered with
    /// the reason of the rejection; a fault of the service is answered with
    /// the general message of a server issue, and its cause stays inside.
    pub fn response(&self) -> (response: ErrorResponse)
        ensures
            response.status == self.client_error().status(),
            response.code == self.client_error().code(),
            response.message@ == if self.is_server_fault() {
                ServerIssue::text()
            } else {
                self.text()
            },
    {
        let error = self.to_error();
        match self {
            LibraryError::DatabaseError(_) => error.response(),
            _ => error.response_with(self.to_string()),
        }
    }
}

} // verus!
