//! The guest's side of the HTTP server interface.

use vstd::prelude::*;
use vstd::string::StringSliceAdditionalSpecFns;
use crate::server::abi::http_server_v1::{Request, Response, ResponseView};

verus! {

/// What a guest without a web handler answers.
pub open spec fn handler_not_set() -> ResponseView {
    ResponseView {
        status_code: 404,
        headers: Seq::empty(),
        body: "Page Not Found (Web handler is not set)".spec_bytes(),
    }
}

/// The guest's answer to a request: what its web handler makes of it, or
/// "not found" where the guest has registered none.
pub fn handle_request<F: Fn(Request) -> Response>(handler: Option<&F>, req: Request) -> (r: Response)
    requires
        handler matches Some(f) ==> call_requires(*f, (req,)),
    ensures
        match handler {
            Some(f) => call_ensures(*f, (req,), r),
            None => r@ == handler_not_set(),
        },
{
    match handler {
        Some(f) => f(req),
        None => {
            let r = Response {
                status_code: 404,
                headers: Vec::new(),
                body: "Page Not Found (Web handler is not set)".as_bytes_vec(),
            };
            assert(crate::data::headers_view(r.headers@) =~= Seq::empty());
            r
        },
    }
}

} // verus!
