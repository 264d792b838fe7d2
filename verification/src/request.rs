//! The raw request a dispatch pass runs against.

use vstd::prelude::*;

verus! {

/// An opaque incoming request.  For the illustrative extractors it carries a
/// single string payload; it is immutable during a dispatch pass.
#[derive(Debug)]
pub struct Request {
    payload: String,
}

impl View for Request {
    type V = Seq<char>;

    closed spec fn view(&self) -> Seq<char> {
        self.payload@
    }
}

impl Request {
    /// Wraps a payload into a request.
    pub fn new(s: String) -> (r: Request)
        ensures
            r@ == s@,
    {
        Request { payload: s }
    }

    /// The payload carried by this request.
    pub fn payload(&self) -> (r: &str)
        ensures
            r@ == self@,
    {
        self.payload.as_str()
    }
}

} // verus!
