//! What the tracing layer reads of an inbound request.

use vstd::prelude::*;
use crate::carrier::{Carrier, Entry};
use crate::text::text_view;

verus! {

/// The head of an inbound request. A part that the request line does not
/// have (no query string, a relative URI without host and scheme) is `None`.
#[derive(Debug)]
pub struct Request {
    pub method: String,
    pub path: String,
    pub version: String,
    pub host: Option<String>,
    pub scheme: Option<String>,
    pub query: Option<String>,
    pub headers: Carrier,
}

/// A request head as a mathematical value.
pub struct RequestView {
    pub method: Seq<char>,
    pub path: Seq<char>,
    pub version: Seq<char>,
    pub host: Option<Seq<char>>,
    pub scheme: Option<Seq<char>>,
    pub query: Option<Seq<char>>,
    pub headers: Seq<Entry>,
}

impl View for Request {
    type V = RequestView;

    open spec fn view(&self) -> RequestView {
        RequestView {
            method: self.method@,
            path: self.path@,
            version: self.version@,
            host: text_view(self.host),
            scheme: text_view(self.scheme),
            query: text_view(self.query),
            headers: self.headers@,
        }
    }
}

impl Request {
    /// A request for `path` with nothing but a method and a protocol version.
    pub fn new(method: String, path: String, version: String) -> (r: Request)
        ensures
            r@ == (RequestView {
                method: method@,
                path: path@,
                version: version@,
                host: None,
                scheme: None,
                query: None,
                headers: Seq::empty(),
            }),
    {
        Request { method, path, version, host: None, scheme: None, query: None, headers: Carrier::new() }
    }

    /// Appends a header.
    pub fn add_header(&mut self, name: String, value: String)
        ensures
            final(self)@ == (RequestView { headers: old(self)@.headers.push((name@, value@)), ..old(self)@ }),
    {
        self.headers.push(name, value);
    }
}

} // verus!
