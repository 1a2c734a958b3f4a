//! Uniform response wrapper for query operations.

use vstd::prelude::*;

verus! {

/// A query response: the data on success, the error code on failure, and
/// the id of the request it answers.
#[derive(Clone, Debug, PartialEq, Eq)]
pub struct Response<T: Clone> {
    /// Whether the query succeeded.
    pub success: bool,
    /// The data, on success.
    pub data: Option<T>,
    /// The error code, on failure.
    pub error: Option<u32>,
    /// Id of the request.
    pub request_id: String,
}

impl<T: Clone> Response<T> {
    /// A successful response carrying `data`.
    pub fn ok(data: T, request_id: String) -> (r: Self)
        ensures
            r.success,
            r.data == Some(data),
            r.error is None,
            r.request_id@ == request_id@,
    {
        Response { success: true, data: Some(data), error: None, request_id }
    }

    /// A failed response carrying `error_code`.
    pub fn err(error_code: u32, request_id: String) -> (r: Self)
        ensures
            !r.success,
            r.data is None,
            r.error == Some(error_code),
            r.request_id@ == request_id@,
    {
        Response { success: false, data: None, error: Some(error_code), request_id }
    }
}

} // verus!
