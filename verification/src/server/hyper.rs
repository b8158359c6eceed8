//! The HTTP front end: requests and responses of an HTTP server, in plain values.

use vstd::prelude::*;
use vstd::string::StringSliceAdditionalSpecFns;
use crate::data::{copy_bytes, copy_headers, copy_text, headers_view, text_view};
use crate::server::abi::http_server_v1::{Request, RequestView, Response as WasmResponse, ResponseView};
use crate::server::tenant::http::{ConvertInput, FromWasm, InvalidResponse, Process as Front};

verus! {

/// The HTTP front end.
pub struct Process;

/// A request of the HTTP server, its body read in full.
#[derive(Debug)]
pub struct ConvertRequest {
    pub method: String,
    /// The path of the request's URI.
    pub path: String,
    /// Path and query of the request's URI, where it has them.
    pub path_and_query: Option<String>,
    pub headers: Vec<(Vec<u8>, Vec<u8>)>,
    pub body: Vec<u8>,
}

/// A response that the HTTP server can send.
#[derive(Debug)]
pub struct Response {
    pub status: u16,
    pub headers: Vec<(Vec<u8>, Vec<u8>)>,
    pub body: Vec<u8>,
}

impl View for Response {
    type V = ResponseView;

    open spec fn view(&self) -> ResponseView {
        ResponseView {
            status_code: self.status,
            headers: headers_view(self.headers@),
            body: self.body@,
        }
    }
}

/// What the guest sees in place of a URI without path and query.
pub open spec fn root() -> Seq<char> {
    seq!['/']
}

/// What the guest sees of a request's URI: its path and query, `/` where
/// it has none. Scheme and authority are not part of it.
pub open spec fn target(path_and_query: Option<Seq<char>>) -> Seq<char> {
    match path_and_query {
        Some(t) => t,
        None => root(),
    }
}

/// The status codes that an HTTP response can carry.
pub open spec fn status_accepted(code: u16) -> bool {
    100 <= code < 1000
}

/// The bytes that may stand in a header's value.
pub open spec fn value_byte_accepted(b: u8) -> bool {
    (b >= 32 && b != 127) || b == 9
}

/// The header values that an HTTP response can carry.
pub open spec fn header_value_accepted(value: Seq<u8>) -> bool {
    forall|i: int| 0 <= i < value.len() ==> value_byte_accepted(#[trigger] value[i])
}

/// Whether `http` takes these bytes as a header's name.
pub uninterp spec fn header_name_accepted(name: Seq<u8>) -> bool;

/// Whether a header can be sent.
pub open spec fn header_accepted(header: (Seq<u8>, Seq<u8>)) -> bool {
    header_name_accepted(header.0) && header_value_accepted(header.1)
}

/// Whether a guest's response can be sent as it is.
pub open spec fn response_accepted(wasm: ResponseView) -> bool {
    &&& status_accepted(wasm.status_code)
    &&& forall|i: int| 0 <= i < wasm.headers.len() ==> header_accepted(#[trigger] wasm.headers[i])
}

/// `http::StatusCode::from_u16`: it takes the codes from 100 to 999 and no other.
#[verifier::external_body]
fn status_is_accepted(code: u16) -> (r: bool)
    ensures
        r == status_accepted(code),
{
    http::StatusCode::from_u16(code).is_ok()
}

/// `http::header::HeaderName::from_bytes`: whether it takes `name`. Which
/// names it takes is a table of that crate, so the answer is only named.
#[verifier::external_body]
fn header_name_is_accepted(name: &Vec<u8>) -> (r: bool)
    ensures
        r == header_name_accepted(name@),
{
    http::header::HeaderName::from_bytes(name.as_slice()).is_ok()
}

/// `http::header::HeaderValue::from_bytes`: it takes a value whose bytes
/// are all 32 or more and not 127, or a tab.
#[verifier::external_body]
fn header_value_is_accepted(value: &Vec<u8>) -> (r: bool)
    ensures
        r == header_value_accepted(value@),
{
    http::header::HeaderValue::from_bytes(value.as_slice()).is_ok()
}

/// The position of the first header that cannot be sent.
pub fn first_rejected_header(headers: &Vec<(Vec<u8>, Vec<u8>)>) -> (r: Option<usize>)
    ensures
        match r {
            Some(i) => i < headers.len() && !header_accepted(headers_view(headers@)[i as int])
                && forall|j: int|
                0 <= j < i ==> header_accepted(#[trigger] headers_view(headers@)[j]),
            None => forall|j: int|
                0 <= j < headers.len() ==> header_accepted(#[trigger] headers_view(headers@)[j]),
        },
{
    let mut i: usize = 0;
    while i < headers.len()
        invariant
            0 <= i <= headers.len(),
            forall|j: int| 0 <= j < i ==> header_accepted(#[trigger] headers_view(headers@)[j]),
        decreases headers.len() - i,
    {
        if !header_name_is_accepted(&headers[i].0) || !header_value_is_accepted(&headers[i].1) {
            return Some(i);
        }
        i = i + 1;
    }
    None
}

/// The text that tells a client where to look.
pub open spec fn not_found_text() -> Seq<u8> {
    "Try /db/default/<wasm-file-name>/".spec_bytes()
}

/// The text that tells a client that the guest failed.
pub open spec fn failure_text() -> Seq<u8> {
    "Wasm failed to handle request".spec_bytes()
}

impl ConvertInput for ConvertRequest {
    open spec fn route_path(&self) -> Seq<char> {
        self.path@
    }

    open spec fn request(&self) -> RequestView {
        RequestView {
            method: self.method@,
            uri: target(text_view(self.path_and_query)),
            headers: headers_view(self.headers@),
            body: self.body@,
        }
    }

    fn path(&self) -> (p: &str) {
        self.path.as_str()
    }

    fn as_v1(&self) -> (r: Request) {
        let uri = match &self.path_and_query {
            Some(t) => copy_text(t),
            None => {
                proof {
                    reveal_strlit("/");
                }
                assert("/"@ =~= root());
                "/".to_owned()
            },
        };
        Request {
            method: copy_text(&self.method),
            uri,
            headers: copy_headers(&self.headers),
            body: copy_bytes(&self.body),
        }
    }
}

impl Response {
    /// The response for what the guest returned, once it is known whether
    /// its status can be sent and which of its headers is the first that
    /// cannot: the guest's response as it is where nothing stands against
    /// it, else the reason, the status before the headers.
    pub fn checked(wasm: WasmResponse, status: bool, rejected: Option<usize>) -> (r: Result<
        Response,
        InvalidResponse,
    >)
        ensures
            r == if !status {
                Err::<Response, InvalidResponse>(InvalidResponse::Status)
            } else {
                match rejected {
                    Some(i) => Err(InvalidResponse::Header(i)),
                    None => Ok(
                        Response {
                            status: wasm.status_code,
                            headers: wasm.headers,
                            body: wasm.body,
                        },
                    ),
                }
            },
    {
        if !status {
            return Err(InvalidResponse::Status);
        }
        match rejected {
            Some(i) => Err(InvalidResponse::Header(i)),
            None => Ok(Response { status: wasm.status_code, headers: wasm.headers, body: wasm.body }),
        }
    }
}

impl FromWasm for Response {
    open spec fn converted(wasm: ResponseView) -> Option<ResponseView> {
        if response_accepted(wasm) {
            Some(wasm)
        } else {
            None
        }
    }

    fn from_wasm(wasm: WasmResponse) -> (r: Result<Self, InvalidResponse>)
        ensures
            match r {
                Ok(out) => true,
                Err(InvalidResponse::Status) => !status_accepted(wasm.status_code),
                Err(InvalidResponse::Header(i)) => status_accepted(wasm.status_code) && i
                    < wasm.headers.len() && !header_accepted(wasm@.headers[i as int]) && forall|
                    j: int,
                | 0 <= j < i ==> header_accepted(#[trigger] wasm@.headers[j]),
            },
    {
        let status = status_is_accepted(wasm.status_code);
        let rejected = first_rejected_header(&wasm.headers);
        proof {
            if let Some(i) = rejected {
                assert(!header_accepted(wasm@.headers[i as int]));
            }
        }
        Response::checked(wasm, status, rejected)
    }
}

impl Front for Process {
    type ConvertInput = ConvertRequest;

    type Output = Response;

    open spec fn not_found() -> ResponseView {
        ResponseView { status_code: 404, headers: Seq::empty(), body: not_found_text() }
    }

    open spec fn internal_server_error() -> ResponseView {
        ResponseView { status_code: 500, headers: Seq::empty(), body: failure_text() }
    }

    fn err_not_found() -> (r: Response) {
        let r = Response {
            status: 404,
            headers: Vec::new(),
            body: "Try /db/default/<wasm-file-name>/".as_bytes_vec(),
        };
        assert(headers_view(r.headers@) =~= Seq::empty());
        r
    }

    fn err_internal_server_error() -> (r: Response) {
        let r = Response {
            status: 500,
            headers: Vec::new(),
            body: "Wasm failed to handle request".as_bytes_vec(),
        };
        assert(headers_view(r.headers@) =~= Seq::empty());
        r
    }
}

} // verus!
