//! The failures that the service reports to a client, with the status and
//! the code under which each of them travels.

use vstd::prelude::*;
use vstd::string::StringExecFns;

verus! {

/// The request was wrong; the client has to change it.
#[derive(Copy, Clone, Debug, PartialEq, Eq, Structural)]
pub struct BadRequest {}

/// What was asked for does not exist.
#[derive(Copy, Clone, Debug, PartialEq, Eq, Structural)]
pub struct NotFound {}

/// The service itself failed.
#[derive(Copy, Clone, Debug, PartialEq, Eq, Structural)]
pub struct ServerIssue {}

impl BadRequest {
    pub open spec fn text() -> Seq<char> {
        "Bad request!"@
    }

    /// The message shown for this failure.
    pub fn to_string(&self) -> (message: String)
        ensures
            message@ == Self::text(),
    {
        String::from_str("Bad request!")
    }
}

impl NotFound {
    pub open spec fn text() -> Seq<char> {
        "Resource not found!"@
    }

    /// The message shown for this failure.
    pub fn to_string(&self) -> (message: String)
        ensures
            message@ == Self::text(),
    {
        String::from_str("Resource not found!")
    }
}

impl ServerIssue {
    pub open spec fn text() -> Seq<char> {
        "Internal server error -- check logs for more details!"@
    }

    /// The message shown for this failure.
    pub fn to_string(&self) -> (message: String)
        ensures
            message@ == Self::text(),
    {
        String::from_str("Internal server error -- check logs for more details!")
    }
}

/// A failure as the client sees it.
#[derive(Copy, Clone, Debug, PartialEq, Eq, Structural)]
pub enum Error {
    BadRequest(BadRequest),
    NotFound(NotFound),
    ServerIssue(ServerIssue),
}

/// What is sent back for a failure: the status of the response, the code in
/// its body and the message beside it.
#[derive(Clone, Debug, PartialEq, Eq)]
pub struct ErrorResponse {
    pub status: u16,
    pub code: u16,
    pub message: String,
}

impl Error {
    /// The status of the response for this failure.
    pub open spec fn status(self) -> u16 {
        match self {
            Error::BadRequest(_) => 400,
            Error::NotFound(_) => 404,
            Error::ServerIssue(_) => 500,
        }
    }

    /// The code in the body of the response for this failure.
    pub open spec fn code(self) -> u16 {
        match self {
            Error::BadRequest(_) => 40001,
            Error::NotFound(_) => 40004,
            Error::ServerIssue(_) => 50001,
        }
    }

    /// The message of this failure.
    pub open spec fn text(self) -> Seq<char> {
        match self {
            Error::BadRequest(_) => BadRequest::text(),
            Error::NotFound(_) => NotFound::text(),
            Error::ServerIssue(_) => ServerIssue::text(),
        }
    }

    /// Status and body code of this failure, in that order.
    pub fn get_codes(&self) -> (codes: (u16, u16))
        ensures
            codes == (self.status(), self.code()),
    {
        match self {
            Error::BadRequest(_) => (400, 40001),
            Error::NotFound(_) => (404, 40004),
            Error::ServerIssue(_) => (500, 50001),
        }
    }

    pub fn not_found() -> (error: Self)
        ensures
            error == Error::NotFound(NotFound {  }),
    {
        Error::NotFound(NotFound {  })
    }

    pub fn bad_request() -> (error: Self)
        ensures
            error == Error::BadRequest(BadRequest {  }),
    {
        Error::BadRequest(BadRequest {  })
    }

    pub fn server_issue() -> (error: Self)
        ensures
            error == Error::ServerIssue(ServerIssue {  }),
    {
        Error::ServerIssue(ServerIssue {  })
    }

    /// The message shown for this failure.
    pub fn to_string(&self) -> (message: String)
        ensures
            message@ == self.text(),
    {
        match self {
            Error::BadRequest(inner) => inner.to_string(),
            Error::NotFound(inner) => inner.to_string(),
            Error::ServerIssue(inner) => inner.to_string(),
        }
    }

    /// The response for this failure with its own message.
    pub fn response(&self) -> (response: ErrorResponse)
        ensures
            response.status == self.status(),
            response.code == self.code(),
            response.message@ == self.text(),
    {
        let (status, code) = self.get_codes();
        ErrorResponse { status, code, message: self.to_string() }
    }

    /// The response for this failure with a message that says more than its
    /// own: status and code stay those of the failure.
    pub fn response_with(&self, message: String) -> (response: ErrorResponse)
        ensures
            response.status == self.status(),
            response.code == self.code(),
            response.message@ == message@,
    {
        let (status, code) = self.get_codes();
        ErrorResponse { status, code, message }
    }
}

} // verus!
