use vstd::prelude::*;

verus! {

/// `200 OK`.
pub const STATUS_OK: u16 = 200;

/// `201 Created`.
pub const STATUS_CREATED: u16 = 201;

/// `204 No Content`.
pub const STATUS_NO_CONTENT: u16 = 204;

/// `400 Bad Request`.
pub const STATUS_BAD_REQUEST: u16 = 400;

/// `404 Not Found`.
pub const STATUS_NOT_FOUND: u16 = 404;

/// `500 Internal Server Error`.
pub const STATUS_INTERNAL_SERVER_ERROR: u16 = 500;

/// `502 Bad Gateway`.
pub const STATUS_BAD_GATEWAY: u16 = 502;

/// A failed request: the HTTP status it is answered with and the message
/// rendered as its `{"error": message}` body.
#[derive(Debug, PartialEq, Eq)]
pub struct ApiError {
    status: u16,
    message: String,
}

impl View for ApiError {
    type V = (u16, Seq<char>);

    closed spec fn view(&self) -> (u16, Seq<char>) {
        (self.status, self.message@)
    }
}

impl ApiError {
    pub fn new(status: u16, message: String) -> (e: Self)
        ensures
            e@ == (status, message@),
    {
        ApiError { status, message }
    }

    pub fn bad_request(message: String) -> (e: Self)
        ensures
            e@ == (STATUS_BAD_REQUEST, message@),
    {
        Self::new(STATUS_BAD_REQUEST, message)
    }

    pub fn internal(message: String) -> (e: Self)
        ensures
            e@ == (STATUS_INTERNAL_SERVER_ERROR, message@),
    {
        Self::new(STATUS_INTERNAL_SERVER_ERROR, message)
    }

    /// The status the request is answered with.
    pub fn status(&self) -> (s: u16)
        ensures
            s == self@.0,
    {
        self.status
    }

    /// The message of the error body.
    pub fn message(&self) -> (m: &str)
        ensures
            m@ == self@.1,
    {
        self.message.as_str()
    }
}

} // verus!
