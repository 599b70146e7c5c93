//! The values that pass through the middleware: what it reads of a request,
//! a response, and the outcome of asking a handler or a body for more.

use http::{HeaderMap, HeaderValue};
use vstd::prelude::*;

verus! {

/// What a virtual route reads of a request. The request's body is not part
/// of it: a route is chosen before any of the body is looked at.
#[derive(Debug, Clone)]
pub struct RequestParts {
    /// The request method, as in the request line.
    pub method: String,
    /// The path of the request target, without the query.
    pub path: String,
}

/// A response: its status code, its headers and its body.
#[derive(Debug)]
pub struct Response<B> {
    pub status: u16,
    pub headers: HeaderMap<HeaderValue>,
    pub body: B,
}

/// What came of asking for a value that may take time: the value, or word
/// that it is not there yet.
#[derive(Debug, Clone, Copy, PartialEq, Eq)]
pub enum Progress<T> {
    Ready(T),
    Pending,
}

impl<B> Response<B> {
    /// The same status and headers around another body.
    pub fn with_body<C>(self, body: C) -> (response: Response<C>)
        ensures
            response.status == self.status,
            response.headers == self.headers,
            response.body == body,
    {
        Response { status: self.status, headers: self.headers, body }
    }
}

} // verus!
