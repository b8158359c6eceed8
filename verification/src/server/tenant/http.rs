//! What a front end has to offer so that the tenant can serve its requests.

use vstd::prelude::*;
use crate::server::abi::http_server_v1::{Request, RequestView, Response, ResponseView};

verus! {

/// The reason why a guest's response cannot be sent on a transport.
#[derive(Clone, Copy, Debug, PartialEq, Eq)]
pub enum InvalidResponse {
    /// The status code is none that the transport can send.
    Status,
    /// The header at this position in the list has a name or a value that
    /// the transport cannot send.
    Header(usize),
}

/// A request that has been read in full.
pub trait ConvertInput {
    /// The path of the request, without its query.
    spec fn route_path(&self) -> Seq<char>;

    /// The request as the guest is to see it.
    spec fn request(&self) -> RequestView;

    /// The path by which the request is routed.
    fn path(&self) -> (p: &str)
        ensures
            p@ == self.route_path(),
    ;

    /// The request in the shape of the guest's interface.
    fn as_v1(&self) -> (r: Request)
        ensures
            r@ == self.request(),
    ;
}

/// A response that can be made from what the guest returned.
pub trait FromWasm: Sized + View {
    /// What the transport makes of a guest's response; `None` where it
    /// cannot send it.
    spec fn converted(wasm: ResponseView) -> Option<Self::V>;

    /// The transport's response for what the guest returned.
    fn from_wasm(wasm: Response) -> (r: Result<Self, InvalidResponse>)
        ensures
            match r {
                Ok(out) => Self::converted(wasm@) == Some(out@),
                Err(_) => Self::converted(wasm@) is None,
            },
    ;
}

/// A front end: the requests it reads and the responses it writes.
pub trait Process {
    /// A request of the front end, read in full.
    type ConvertInput: ConvertInput;

    /// A response of the front end.
    type Output: FromWasm;

    /// The response for a path that leads nowhere.
    spec fn not_found() -> <Self::Output as View>::V;

    /// The response for a guest that failed.
    spec fn internal_server_error() -> <Self::Output as View>::V;

    /// The response for a path that leads nowhere.
    fn err_not_found() -> (r: Self::Output)
        ensures
            r@ == Self::not_found(),
    ;

    /// The response for a guest that failed.
    fn err_internal_server_error() -> (r: Self::Output)
        ensures
            r@ == Self::internal_server_error(),
    ;
}

} // verus!
