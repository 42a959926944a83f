//! The answer the receiver produces for a request: a status code and a
//! body, the only two things the protocol fixes about a response.

use vstd::prelude::*;

verus! {

pub const STATUS_OK: u16 = 200;
pub const STATUS_BAD_REQUEST: u16 = 400;
pub const STATUS_FORBIDDEN: u16 = 403;
pub const STATUS_NOT_FOUND: u16 = 404;

/// An HTTP-shaped answer: a status code and a body.
pub struct Response {
    pub status: u16,
    pub body: String,
}

/// Mathematical image of a [`Response`].
pub ghost struct ResponseView {
    pub status: int,
    pub body: Seq<char>,
}

impl View for Response {
    type V = ResponseView;

    open spec fn view(&self) -> ResponseView {
        ResponseView { status: self.status as int, body: self.body@ }
    }
}

impl Response {
    /// A success response carrying the given body.
    pub fn ok(body: String) -> (r: Response)
        ensures
            r@ == (ResponseView { status: STATUS_OK as int, body: body@ }),
    {
        Response { status: STATUS_OK, body }
    }

    /// A response with the given status and an empty body.
    pub fn empty(status: u16) -> (r: Response)
        ensures
            r@ == (ResponseView { status: status as int, body: Seq::<char>::empty() }),
    {
        Response { status, body: String::new() }
    }
}

/// The diagnostic greeting served at the root route.
pub fn greeting() -> (r: &'static str)
    ensures
        r@ == "Hello world!"@,
{
    "Hello world!"
}

} // verus!
