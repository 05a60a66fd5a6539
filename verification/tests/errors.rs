use biblioteca::catalog::error::CatalogError;
use biblioteca::decimal::decimal_string;
use biblioteca::error::{BadRequest, Error, ErrorResponse, NotFound, ServerIssue};
use biblioteca::library::error::{LibraryError, StorageError};
use biblioteca::library::model::{BookBorrowState, BorrowBookRequest};

#[test]
fn numbers_are_written_in_decimal() {
    assert_eq!(decimal_string(0), "0");
    assert_eq!(decimal_string(7), "7");
    assert_eq!(decimal_string(10), "10");
    assert_eq!(decimal_string(109), "109");
    assert_eq!(decimal_string(1_234_567_890), "1234567890");
    assert_eq!(decimal_string(u32::MAX), "4294967295");
}

#[test]
fn client_errors_carry_their_codes() {
    assert_eq!(Error::bad_request(), Error::BadRequest(BadRequest {}));
    assert_eq!(Error::not_found(), Error::NotFound(NotFound {}));
    assert_eq!(Error::server_issue(), Error::ServerIssue(ServerIssue {}));
    assert_eq!(Error::bad_request().get_codes(), (400, 40001));
    assert_eq!(Error::not_found().get_codes(), (404, 40004));
    assert_eq!(Error::server_issue().get_codes(), (500, 50001));
}

#[test]
fn client_errors_carry_their_messages() {
    assert_eq!(Error::bad_request().to_string(), "Bad request!");
    assert_eq!(Error::not_found().to_string(), "Resource not found!");
    assert_eq!(
        Error::server_issue().to_string(),
        "Internal server error -- check logs for more details!"
    );
    assert_eq!(BadRequest {}.to_string(), "Bad request!");
    assert_eq!(NotFound {}.to_string(), "Resource not found!");
    assert_eq!(
        ServerIssue {}.to_string(),
        "Internal server error -- check logs for more details!"
    );
}

#[test]
fn a_response_holds_status_code_and_message() {
    assert_eq!(
        Error::not_found().response(),
        ErrorResponse { status: 404, code: 40004, message: "Resource not found!".to_string() }
    );
    assert_eq!(
        Error::bad_request().response_with("user does not exist".to_string()),
        ErrorResponse { status: 400, code: 40001, message: "user does not exist".to_string() }
    );
}

#[test]
fn lending_errors_have_their_messages() {
    assert_eq!(
        LibraryError::DatabaseError(StorageError::OutOfOrder).to_string(),
        "there was an error in accessing the database"
    );
    assert_eq!(LibraryError::UserNotExists.to_string(), "user does not exist");
    assert_eq!(LibraryError::BookNotExists.to_string(), "book does not exist");
    assert_eq!(
        LibraryError::ResourceNotExists.to_string(),
        "either user or book does not exist"
    );
    assert_eq!(LibraryError::BookAlreadyBorrowed.to_string(), "book has already been borrowed");
    assert_eq!(LibraryError::BookAlreadyReturned.to_string(), "book has already been returned");
    assert_eq!(
        LibraryError::BookNotBorrowedByUser.to_string(),
        "book was not borrowed by given user"
    );
    assert_eq!(
        LibraryError::NumBorrowableExceeded(3).to_string(),
        "user has reached max num of borrowable books (max: 3)"
    );
    assert_eq!(
        LibraryError::NumBorrowableExceeded(4_000_000_000).to_string(),
        "user has reached max num of borrowable books (max: 4000000000)"
    );
}

#[test]
fn rejections_are_bad_requests_and_storage_failures_server_issues() {
    let rejections = [
        LibraryError::UserNotExists,
        LibraryError::BookNotExists,
        LibraryError::ResourceNotExists,
        LibraryError::BookAlreadyBorrowed,
        LibraryError::BookAlreadyReturned,
        LibraryError::BookNotBorrowedByUser,
        LibraryError::NumBorrowableExceeded(2),
    ];
    for rejection in rejections {
        assert_eq!(rejection.to_error(), Error::bad_request());
        let response = rejection.response();
        assert_eq!(response.status, 400);
        assert_eq!(response.code, 40001);
        assert_eq!(response.message, rejection.to_string());
    }
    let fault = LibraryError::DatabaseError(StorageError::OutOfOrder);
    assert_eq!(fault.to_error(), Error::server_issue());
    assert_eq!(fault.response(), Error::server_issue().response());
}

#[test]
fn catalog_errors_have_their_messages_and_responses() {
    assert_eq!(
        CatalogError::DatabaseError.to_string(),
        "there was an error in accessing the database"
    );
    assert_eq!(CatalogError::AuthorNotFound.to_string(), "author does not exist in catalog");
    assert_eq!(CatalogError::AuthorNotFound.to_error(), Error::bad_request());
    assert_eq!(CatalogError::DatabaseError.to_error(), Error::server_issue());
    assert_eq!(
        CatalogError::AuthorNotFound.response(),
        ErrorResponse {
            status: 400,
            code: 40001,
            message: "author does not exist in catalog".to_string(),
        }
    );
    assert_eq!(CatalogError::DatabaseError.response(), Error::server_issue().response());
}

#[test]
fn a_state_is_written_and_read_back_as_text() {
    assert_eq!(BookBorrowState::Borrowed.to_string(), "Borrowed");
    assert_eq!(BookBorrowState::Returned.to_string(), "Returned");
    assert_eq!(BookBorrowState::from_str("Borrowed"), BookBorrowState::Borrowed);
    assert_eq!(BookBorrowState::from_str("Returned"), BookBorrowState::Returned);
    for state in [BookBorrowState::Borrowed, BookBorrowState::Returned] {
        assert_eq!(BookBorrowState::from_str(&state.to_string()), state);
    }
}

#[test]
fn every_text_but_borrowed_reads_as_returned() {
    assert_eq!(BookBorrowState::from_str(""), BookBorrowState::Returned);
    assert_eq!(BookBorrowState::from_str("borrowed"), BookBorrowState::Returned);
    assert_eq!(BookBorrowState::from_str("Borrowed "), BookBorrowState::Returned);
    assert_eq!(BookBorrowState::from_str("Lost"), BookBorrowState::Returned);
}

#[test]
fn a_borrow_request_names_the_user() {
    let request = BorrowBookRequest { user_id: 42 };
    assert_eq!(request.user_id, 42);
    assert_eq!(request, BorrowBookRequest { user_id: 42 });
}
