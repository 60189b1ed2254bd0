//! The uniform response envelope handed to the transport.

use vstd::prelude::*;

verus! {

/// A response body: an optional payload and an optional message. Error
/// responses carry a message and no payload; per the error-handling policy
/// the message must not reveal which authentication check failed.
#[derive(Debug)]
pub struct ApiResponse<T> {
    pub data: Option<T>,
    pub message: Option<String>,
}

} // verus!
