use vstd::prelude::*;

verus! {

/// Mathematical image of an error envelope: the message, the HTTP status
/// that accompanies it, and the numeric code for programmatic matching.
#[verifier::ext_equal]
pub ghost struct APIErrorView {
    pub message: Seq<char>,
    pub status_code: int,
    pub error_code: Option<int>,
}

/// Uniform error envelope returned on any failure. Exactly two kinds exist:
/// not-found (status 404, code 44) and internal (status 500, code 50).
#[derive(Debug)]
pub struct APIError {
    pub message: String,
    pub status_code: u16,
    pub error_code: Option<i32>,
}

impl View for APIError {
    type V = APIErrorView;

    open spec fn view(&self) -> APIErrorView {
        APIErrorView {
            message: self.message@,
            status_code: self.status_code as int,
            error_code: match self.error_code {
                Some(c) => Some(c as int),
                None => None,
            },
        }
    }
}

/// The one not-found envelope: fixed message, status 404, code 44.
pub open spec fn not_found_error() -> APIErrorView {
    APIErrorView { message: "Not Found"@, status_code: 404, error_code: Some(44int) }
}

/// An internal (datastore-failure) envelope: the underlying error's text
/// carried verbatim, status 500, code 50.
pub open spec fn internal_error(message: Seq<char>) -> APIErrorView {
    APIErrorView { message: message, status_code: 500, error_code: Some(50int) }
}

impl APIError {
    /// The error returned when an operation addresses an id with no row.
    pub fn not_found() -> (r: APIError)
        ensures
            r@ == not_found_error(),
    {
        APIError { message: "Not Found".to_owned(), status_code: 404, error_code: Some(44) }
    }

    /// Translates a datastore failure description into the generic server
    /// error, keeping the text verbatim.
    pub fn internal(message: String) -> (r: APIError)
        ensures
            r@ == internal_error(message@),
    {
        APIError { message, status_code: 500, error_code: Some(50) }
    }
}

} // verus!
