//! The local front end: requests that arrive as envelopes over a stream
//! socket, and the responses that go back the same way.

use vstd::prelude::*;
use vstd::string::StringSliceAdditionalSpecFns;
use crate::data::{bytes_view, copy_bytes, copy_headers, copy_text, headers_view};
use crate::dict::Dict;
use crate::server::abi::http_server_v1::{Request as WasmRequest, RequestView, Response as WasmResponse, ResponseView};
use crate::server::hyper::target;
use crate::server::tenant::http::{ConvertInput, FromWasm, InvalidResponse, Process as Front};

verus! {

/// The local front end, for requests that live as long as `'a`.
pub struct Process<'a>(pub std::marker::PhantomData<&'a ()>);

/// What a peer may ask for.
#[derive(Debug)]
pub enum Request {
    SetDirectory(SetDirectory),
    Http(HttpRequest),
}

/// What a peer is told: the result, or the reason why there is none.
#[derive(Debug)]
pub enum Signal<T> {
    Success(T),
    Failure { error: String },
}

/// The request to serve a database's modules from a directory.
#[derive(Debug)]
pub struct SetDirectory {
    pub database: String,
    pub directory: String,
}

/// An HTTP request inside an envelope.
#[derive(Debug)]
pub struct HttpRequest {
    pub method: String,
    pub url: String,
    pub headers: Vec<(Vec<u8>, Vec<u8>)>,
    pub body: Option<Vec<u8>>,
}

/// An HTTP request whose URL has been taken apart.
pub struct ConvertRequest<'a> {
    path: String,
    path_and_query: Option<String>,
    request: &'a HttpRequest,
}

/// The response to an HTTP request inside an envelope. Each header name
/// occurs once.
pub struct Response {
    pub status: u16,
    pub headers: Dict<Vec<u8>, Vec<u8>>,
    pub body: Option<Vec<u8>>,
}

/// A response of the local front end as a mathematical value.
pub ghost struct LocalResponseView {
    pub status: u16,
    pub headers: Map<Seq<u8>, Seq<u8>>,
    pub body: Option<Seq<u8>>,
}

/// The reason why a URL cannot be served.
#[derive(Clone, Copy, Debug, PartialEq, Eq)]
pub struct InvalidUrl;

/// The error of `http` for a string that is no URI.
#[verifier::external_type_specification]
#[verifier::external_body]
pub struct ExInvalidUri(http::uri::InvalidUri);

/// Path, and path with query, of a URI.
pub struct UriParts {
    pub path: String,
    pub path_and_query: Option<String>,
}

/// What `http` makes of a URL: `None` where it is no URI, else its path
/// and, where it has them, its path and query.
pub uninterp spec fn uri_parts(url: Seq<char>) -> Option<(Seq<char>, Option<Seq<char>>)>;

/// `http::Uri::from_str`, read through `Uri::path` and
/// `Uri::path_and_query`: the parts of `url`, or the error for a string
/// that is no URI.
#[verifier::external_body]
fn parse_uri(url: &str) -> (r: Result<UriParts, http::uri::InvalidUri>)
    ensures
        match r {
            Ok(parts) => uri_parts(url@) == Some(
                (parts.path@, crate::data::text_view(parts.path_and_query)),
            ),
            Err(_) => uri_parts(url@) is None,
        },
{
    let uri: http::Uri = url.parse()?;
    Ok(
        UriParts {
            path: uri.path().to_string(),
            path_and_query: uri.path_and_query().map(|p| p.as_str().to_string()),
        },
    )
}

/// The headers of a response as a map: of a name that occurs more than
/// once, the last value stands.
pub open spec fn header_map(headers: Seq<(Seq<u8>, Seq<u8>)>) -> Map<Seq<u8>, Seq<u8>>
    decreases headers.len(),
{
    if headers.len() == 0 {
        Map::empty()
    } else {
        header_map(headers.drop_last()).insert(headers.last().0, headers.last().1)
    }
}

/// The values of a header table as mathematical values.
pub open spec fn values_view(headers: Map<Seq<u8>, Vec<u8>>) -> Map<Seq<u8>, Seq<u8>> {
    headers.map_values(|v: Vec<u8>| v@)
}

/// The text that tells a peer where to look.
pub open spec fn not_found_text() -> Seq<u8> {
    "Try /db/<database>/<wasm-file-name>/".spec_bytes()
}

/// The text that tells a peer that the guest failed.
pub open spec fn failure_text() -> Seq<u8> {
    "Wasm failed to handle request".spec_bytes()
}

impl<T> Signal<T> {
    /// The signal for the outcome of a request.
    pub fn from_result(result: Result<T, String>) -> (r: Signal<T>)
        ensures
            match result {
                Ok(value) => r == Signal::Success(value),
                Err(error) => r == (Signal::<T>::Failure { error }),
            },
    {
        match result {
            Ok(value) => Signal::Success(value),
            Err(error) => Signal::Failure { error },
        }
    }
}

impl<'a> ConvertRequest<'a> {
    /// The request with its URL taken apart into `parts`: it is routed by
    /// the path, and the guest sees path and query.
    pub fn from_parts(request: &'a HttpRequest, parts: UriParts) -> (input: ConvertRequest<'a>)
        ensures
            input.route_path() == parts.path@,
            input.request() == (RequestView {
                method: request.method@,
                uri: target(crate::data::text_view(parts.path_and_query)),
                headers: headers_view(request.headers@),
                body: match request.body {
                    Some(b) => b@,
                    None => Seq::empty(),
                },
            }),
    {
        ConvertRequest { path: parts.path, path_and_query: parts.path_and_query, request }
    }
}

impl HttpRequest {
    /// Takes the URL of the request apart, so that the request can be
    /// routed and handed to a guest.
    pub fn read_full(&self) -> (r: Result<ConvertRequest<'_>, InvalidUrl>)
        ensures
            match r {
                Ok(input) => match uri_parts(self.url@) {
                    Some((path, path_and_query)) => input.route_path() == path && input.request()
                        == (RequestView {
                        method: self.method@,
                        uri: target(path_and_query),
                        headers: headers_view(self.headers@),
                        body: match self.body {
                            Some(b) => b@,
                            None => Seq::empty(),
                        },
                    }),
                    None => false,
                },
                Err(_) => uri_parts(self.url@) is None,
            },
    {
        match parse_uri(self.url.as_str()) {
            Ok(parts) => Ok(ConvertRequest::from_parts(self, parts)),
            Err(_) => Err(InvalidUrl),
        }
    }
}

impl<'a> ConvertInput for ConvertRequest<'a> {
    closed spec fn route_path(&self) -> Seq<char> {
        self.path@
    }

    closed spec fn request(&self) -> RequestView {
        RequestView {
            method: self.request.method@,
            uri: target(crate::data::text_view(self.path_and_query)),
            headers: headers_view(self.request.headers@),
            body: match self.request.body {
                Some(b) => b@,
                None => Seq::empty(),
            },
        }
    }

    fn path(&self) -> (p: &str) {
        self.path.as_str()
    }

    fn as_v1(&self) -> (r: WasmRequest) {
        let uri = match &self.path_and_query {
            Some(t) => copy_text(t),
            None => {
                proof {
                    reveal_strlit("/");
                }
                assert("/"@ =~= crate::server::hyper::root());
                "/".to_owned()
            },
        };
        let body = match &self.request.body {
            Some(b) => copy_bytes(b),
            None => Vec::new(),
        };
        WasmRequest {
            method: copy_text(&self.request.method),
            uri,
            headers: copy_headers(&self.request.headers),
            body,
        }
    }
}

impl View for Response {
    type V = LocalResponseView;

    open spec fn view(&self) -> LocalResponseView {
        LocalResponseView {
            status: self.status,
            headers: values_view(self.headers@),
            body: bytes_view(self.body),
        }
    }
}

impl Response {
    /// The invariant of the type.
    pub open spec fn wf(&self) -> bool {
        self.headers.wf()
    }
}

/// The table of a list of headers.
pub fn collect_headers(headers: Vec<(Vec<u8>, Vec<u8>)>) -> (table: Dict<Vec<u8>, Vec<u8>>)
    ensures
        table.wf(),
        values_view(table@) == header_map(headers_view(headers@)),
{
    let ghost all = headers_view(headers@);
    let mut table: Dict<Vec<u8>, Vec<u8>> = Dict::new();
    for header in it: headers
        invariant
            table.wf(),
            it.seq() == headers@,
            all == headers_view(headers@),
            values_view(table@) == header_map(all.take(it.index())),
    {
        assert(all.take(it.index() + 1).drop_last() =~= all.take(it.index()));
        let (name, value) = header;
        table.insert(name, value);
    }
    assert(all.take(all.len() as int) =~= all);
    table
}

impl FromWasm for Response {
    open spec fn converted(wasm: ResponseView) -> Option<LocalResponseView> {
        Some(
            LocalResponseView {
                status: wasm.status_code,
                headers: header_map(wasm.headers),
                body: Some(wasm.body),
            },
        )
    }

    fn from_wasm(wasm: WasmResponse) -> (r: Result<Self, InvalidResponse>)
        ensures
            r is Ok,
            r->Ok_0.wf(),
    {
        Ok(
            Response {
                status: wasm.status_code,
                headers: collect_headers(wasm.headers),
                body: Some(wasm.body),
            },
        )
    }
}

impl<'a> Front for Process<'a> {
    type ConvertInput = ConvertRequest<'a>;

    type Output = Response;

    open spec fn not_found() -> LocalResponseView {
        LocalResponseView { status: 404, headers: Map::empty(), body: Some(not_found_text()) }
    }

    open spec fn internal_server_error() -> LocalResponseView {
        LocalResponseView { status: 500, headers: Map::empty(), body: Some(failure_text()) }
    }

    fn err_not_found() -> (r: Response)
        ensures
            r.wf(),
    {
        let r = Response {
            status: 404,
            headers: Dict::new(),
            body: Some("Try /db/<database>/<wasm-file-name>/".as_bytes_vec()),
        };
        assert(values_view(r.headers@) =~= Map::empty());
        r
    }

    fn err_internal_server_error() -> (r: Response)
        ensures
            r.wf(),
    {
        let r = Response {
            status: 500,
            headers: Dict::new(),
            body: Some("Wasm failed to handle request".as_bytes_vec()),
        };
        assert(values_view(r.headers@) =~= Map::empty());
        r
    }
}

} // verus!
