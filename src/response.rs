//! The envelope of every non-websocket response: `{"type":"success","data":...}`
//! or `{"type":"error","data":"<message>"}`.

use vstd::prelude::*;

verus! {

/// A response body.
pub enum ApiResponse<T> {
    Success(T),
    Error(String),
}

impl<T> ApiResponse<T> {
    /// 200 for a success, 400 for an error.
    pub fn status_code(&self) -> (r: u16)
        ensures
            r == (if self is Success {
                200u16
            } else {
                400u16
            }),
    {
        match self {
            ApiResponse::Success(_) => 200,
            ApiResponse::Error(_) => 400,
        }
    }
}

} // verus!
