//! The responses this layer produces by itself.

use vstd::prelude::*;
use crate::error::Error;

verus! {

/// Status of the response to a request that was not authenticated.
pub const UNAUTHORIZED: u16 = 401;

/// Status of the response that a session failure is commonly turned into.
pub const INTERNAL_SERVER_ERROR: u16 = 500;

/// A response: a status and a body.
#[derive(Debug)]
pub struct Response {
    pub status: u16,
    pub body: Vec<u8>,
}

/// What a [`Response`] holds.
pub struct ResponseModel {
    pub status: u16,
    pub body: Seq<u8>,
}

impl View for Response {
    type V = ResponseModel;

    open spec fn view(&self) -> ResponseModel {
        ResponseModel { status: self.status, body: self.body@ }
    }
}

/// The response to every request that was not authenticated: status 401 and
/// an empty body, whatever the reason.
pub open spec fn unauthorized_response() -> ResponseModel {
    ResponseModel { status: 401, body: Seq::empty() }
}

/// The response that stands for a session failure: status 500 and an empty
/// body.
pub open spec fn failure_response() -> ResponseModel {
    ResponseModel { status: 500, body: Seq::empty() }
}

impl Response {
    /// The response to a request that was not authenticated.
    pub fn unauthorized() -> (response: Response)
        ensures
            response@ == unauthorized_response(),
    {
        Response { status: UNAUTHORIZED, body: Vec::new() }
    }
}

impl From<Error> for Response {
    /// The response that a handler commonly gives for a session failure.
    fn from(error: Error) -> (response: Response)
        ensures
            response@ == failure_response(),
    {
        Response { status: INTERNAL_SERVER_ERROR, body: Vec::new() }
    }
}

/// A response holds a vector and so cannot be written down as a value of
/// specifications: what `from` returns is stated on `from` itself, above.
impl vstd::std_specs::convert::FromSpecImpl<Error> for Response {
    open spec fn obeys_from_spec() -> bool {
        false
    }

    open spec fn from_spec(error: Error) -> Response {
        arbitrary()
    }
}

} // verus!
