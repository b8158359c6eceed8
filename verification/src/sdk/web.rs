//! What a guest needs to answer HTTP requests.

use vstd::prelude::*;

verus! {

/// The builder of responses of `http`.
#[verifier::external_type_specification]
#[verifier::external_body]
pub struct ExBuilder(http::response::Builder);

/// `http::Response::builder`: a builder on which nothing has been set.
/// Nothing is claimed of it.
#[verifier::external_body]
fn builder() -> http::response::Builder {
    http::Response::builder()
}

/// A builder for the response of a handler.
pub fn response() -> http::response::Builder {
    builder()
}

/// The place of a guest's one web handler.
pub struct Registration<F> {
    handler: Option<F>,
}

impl<F> Registration<F> {
    /// The handler that has been registered.
    pub closed spec fn handler(&self) -> Option<F> {
        self.handler
    }

    /// A place without a handler.
    pub fn new() -> (r: Self)
        ensures
            r.handler() is None,
    {
        Registration { handler: None }
    }

    /// Whether a handler has been registered.
    pub fn is_registered(&self) -> (r: bool)
        ensures
            r == self.handler() is Some,
    {
        self.handler.is_some()
    }

    /// Registers `f` as the guest's web handler. A guest has one handler:
    /// to register a second one is a fault of the guest.
    pub fn register_handler(&mut self, f: F)
        requires
            old(self).handler() is None,
        ensures
            final(self).handler() == Some(f),
    {
        self.handler = Some(f);
    }

    /// The registered handler.
    pub fn get(&self) -> (r: Option<&F>)
        ensures
            match r {
                Some(f) => self.handler() == Some(*f),
                None => self.handler() is None,
            },
    {
        self.handler.as_ref()
    }
}

} // verus!
