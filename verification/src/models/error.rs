//! The errors in which the service reports every failure.

use crate::models::decimal::{decimal, decimal_of};
use crate::repositories::items::{StoreError, StoreErrorView};
use vstd::prelude::*;

verus! {

/// The status of a request that the caller got wrong.
pub const BAD_REQUEST: u16 = 400;

/// The status of a request for something that is not there.
pub const NOT_FOUND: u16 = 404;

/// The status of a request that collides with what is already there.
pub const CONFLICT: u16 = 409;

/// The status of a request on which the service itself failed.
pub const INTERNAL_SERVER_ERROR: u16 = 500;

/// What a caller is told of a failure: a message, and the HTTP status under
/// which it is sent.
#[derive(Debug, PartialEq)]
pub struct ErrorResponse {
    pub error: String,
    pub status_code: u16,
}

/// An [`ErrorResponse`] as a value of mathematics.
#[verifier::ext_equal]
pub struct ErrorResponseView {
    pub error: Seq<char>,
    pub status_code: u16,
}

impl View for ErrorResponse {
    type V = ErrorResponseView;

    open spec fn view(&self) -> ErrorResponseView {
        ErrorResponseView { error: self.error@, status_code: self.status_code }
    }
}

/// An error that knows what to tell the caller.
pub trait IntoErrorResponse {
    fn error(&self) -> ErrorResponse;
}

/// Why an item could not be created.
#[derive(Debug, PartialEq)]
pub enum APIError {
    /// A stored item carries a category that the service does not know.
    InvalidCategory(String),
    /// The store already holds an item of that name.
    ItemAlreadyExists(String),
    /// The store failed to take the new item.
    AddingItemError(StoreError),
    /// The store took the new item and then could not show it.
    ItemNotFound(i32),
}

/// An [`APIError`] as a value of mathematics.
#[verifier::ext_equal]
pub enum APIErrorView {
    InvalidCategory(Seq<char>),
    ItemAlreadyExists(Seq<char>),
    AddingItemError(StoreErrorView),
    ItemNotFound(i32),
}

impl View for APIError {
    type V = APIErrorView;

    open spec fn view(&self) -> APIErrorView {
        match self {
            APIError::InvalidCategory(word) => APIErrorView::InvalidCategory(word@),
            APIError::ItemAlreadyExists(name) => APIErrorView::ItemAlreadyExists(name@),
            APIError::AddingItemError(cause) => APIErrorView::AddingItemError(cause@),
            APIError::ItemNotFound(id) => APIErrorView::ItemNotFound(*id),
        }
    }
}

impl APIErrorView {
    /// The message: what went wrong, and with which name, word, id or
    /// failure of the store.
    pub open spec fn message(self) -> Seq<char> {
        match self {
            APIErrorView::InvalidCategory(word) => "Invalid category: "@ + word,
            APIErrorView::ItemAlreadyExists(name) => "Item is already exists: "@ + name,
            APIErrorView::AddingItemError(cause) => "Failed to add item "@ + cause.describe(),
            APIErrorView::ItemNotFound(id) => "Item not found: "@ + decimal(id as int),
        }
    }

    /// The status: the caller's fault, a conflict, the service's fault, or
    /// nothing found.
    pub open spec fn status_code(self) -> u16 {
        match self {
            APIErrorView::InvalidCategory(_) => BAD_REQUEST,
            APIErrorView::ItemAlreadyExists(_) => CONFLICT,
            APIErrorView::AddingItemError(_) => INTERNAL_SERVER_ERROR,
            APIErrorView::ItemNotFound(_) => NOT_FOUND,
        }
    }

    /// What the caller is told.
    pub open spec fn response(self) -> ErrorResponseView {
        ErrorResponseView { error: self.message(), status_code: self.status_code() }
    }
}

impl Clone for APIError {
    fn clone(&self) -> (copy: Self)
        ensures
            copy == *self,
    {
        match self {
            APIError::InvalidCategory(word) => APIError::InvalidCategory(word.clone()),
            APIError::ItemAlreadyExists(name) => APIError::ItemAlreadyExists(name.clone()),
            APIError::AddingItemError(cause) => APIError::AddingItemError(cause.clone()),
            APIError::ItemNotFound(id) => APIError::ItemNotFound(*id),
        }
    }
}

impl IntoErrorResponse for APIError {
    /// What the caller is told of this error.
    fn error(&self) -> (response: ErrorResponse)
        ensures
            response@ == self@.response(),
    {
        match self {
            APIError::InvalidCategory(word) => {
                let mut error = String::from_str("Invalid category: ");
                error.append(word.as_str());
                ErrorResponse { error, status_code: BAD_REQUEST }
            },
            APIError::ItemAlreadyExists(name) => {
                let mut error = String::from_str("Item is already exists: ");
                error.append(name.as_str());
                ErrorResponse { error, status_code: CONFLICT }
            },
            APIError::AddingItemError(cause) => {
                let mut error = String::from_str("Failed to add item ");
                error.append(cause.describe().as_str());
                ErrorResponse { error, status_code: INTERNAL_SERVER_ERROR }
            },
            APIError::ItemNotFound(id) => {
                let mut error = String::from_str("Item not found: ");
                error.append(decimal_of(*id).as_str());
                ErrorResponse { error, status_code: NOT_FOUND }
            },
        }
    }
}

} // verus!
