//! HTTP server, version 1: the guest exports one function that takes a
//! request and returns a response.

use vstd::prelude::*;
use crate::data::headers_view;

verus! {

/// A request as the guest sees it.
#[derive(Debug)]
pub struct Request {
    pub method: String,
    /// Path and query of the request; never an authority.
    pub uri: String,
    pub headers: Vec<(Vec<u8>, Vec<u8>)>,
    pub body: Vec<u8>,
}

/// A request as a mathematical value.
pub ghost struct RequestView {
    pub method: Seq<char>,
    pub uri: Seq<char>,
    pub headers: Seq<(Seq<u8>, Seq<u8>)>,
    pub body: Seq<u8>,
}

impl View for Request {
    type V = RequestView;

    open spec fn view(&self) -> RequestView {
        RequestView {
            method: self.method@,
            uri: self.uri@,
            headers: headers_view(self.headers@),
            body: self.body@,
        }
    }
}

/// A response as the guest returns it.
#[derive(Debug)]
pub struct Response {
    pub status_code: u16,
    pub headers: Vec<(Vec<u8>, Vec<u8>)>,
    pub body: Vec<u8>,
}

/// A response as a mathematical value.
pub ghost struct ResponseView {
    pub status_code: u16,
    pub headers: Seq<(Seq<u8>, Seq<u8>)>,
    pub body: Seq<u8>,
}

impl View for Response {
    type V = ResponseView;

    open spec fn view(&self) -> ResponseView {
        ResponseView {
            status_code: self.status_code,
            headers: headers_view(self.headers@),
            body: self.body@,
        }
    }
}

} // verus!
