//! The multiplexer: two handlers presented as one.

use crate::poll::Polled;
use crate::ready::join_readiness;
use crate::ready::joint_readiness;
use crate::route::branch_of_request;
use crate::route::first_value;
use crate::route::headers_of;
use crate::route::is_grpc_value;
use crate::route::route_request;
use crate::route::Branch;
use hyper::Body;
use hyper::Request;
use vstd::prelude::*;

verus! {

/// A request on its way to one of the two handlers.
#[derive(Debug, PartialEq, Eq)]
pub enum Routed<R> {
    /// The request goes to the gRPC handler.
    Grpc(R),
    /// The request goes to the web handler.
    Web(R),
}

impl<R> Routed<R> {
    /// The handler that the request goes to.
    pub open spec fn branch_spec(&self) -> Branch {
        match self {
            Routed::Grpc(_) => Branch::Grpc,
            Routed::Web(_) => Branch::Web,
        }
    }

    /// The request itself.
    pub open spec fn request(self) -> R {
        match self {
            Routed::Grpc(request) => request,
            Routed::Web(request) => request,
        }
    }

    /// The handler that the request goes to.
    #[verifier::when_used_as_spec(branch_spec)]
    pub fn branch(&self) -> (branch: Branch)
        ensures
            branch == self.branch_spec(),
    {
        match self {
            Routed::Grpc(_) => Branch::Grpc,
            Routed::Web(_) => Branch::Web,
        }
    }
}

/// `request` on its way to the handler `branch`.
pub open spec fn routed_to<R>(branch: Branch, request: R) -> Routed<R> {
    match branch {
        Branch::Grpc => Routed::Grpc(request),
        Branch::Web => Routed::Web(request),
    }
}

/// Two handlers behind one front: a gRPC handler, which gets the requests
/// whose `Content-Type` begins with `application/grpc`, and a web handler,
/// which gets all the others.
pub struct Multiplexer<Grpc, Web> {
    grpc: Grpc,
    web: Web,
}

impl<Grpc, Web> Multiplexer<Grpc, Web> {
    /// The gRPC handler.
    pub closed spec fn grpc_spec(&self) -> Grpc {
        self.grpc
    }

    /// The web handler.
    pub closed spec fn web_spec(&self) -> Web {
        self.web
    }

    /// Puts two handlers behind one front.
    pub fn new(grpc: Grpc, web: Web) -> (multiplexer: Self)
        ensures
            multiplexer.grpc_spec() == grpc,
            multiplexer.web_spec() == web,
    {
        Multiplexer { grpc, web }
    }

    /// The gRPC handler.
    pub fn grpc(&self) -> (grpc: &Grpc)
        ensures
            *grpc == self.grpc_spec(),
    {
        &self.grpc
    }

    /// The web handler.
    pub fn web(&self) -> (web: &Web)
        ensures
            *web == self.web_spec(),
    {
        &self.web
    }

    /// The gRPC handler, to call it.
    pub fn grpc_mut(&mut self) -> (grpc: &mut Grpc)
        ensures
            *grpc == old(self).grpc_spec(),
            final(self).grpc_spec() == *final(grpc),
            final(self).web_spec() == old(self).web_spec(),
    {
        &mut self.grpc
    }

    /// The web handler, to call it.
    pub fn web_mut(&mut self) -> (web: &mut Web)
        ensures
            *web == old(self).web_spec(),
            final(self).web_spec() == *final(web),
            final(self).grpc_spec() == old(self).grpc_spec(),
    {
        &mut self.web
    }

    /// Takes the front away and gives the two handlers back, the gRPC
    /// handler first.
    pub fn into_parts(self) -> (parts: (Grpc, Web))
        ensures
            parts.0 == self.grpc_spec(),
            parts.1 == self.web_spec(),
    {
        (self.grpc, self.web)
    }

    /// What the multiplexer reports of its readiness, given what its two
    /// handlers have just reported of theirs. Both handlers are to be asked
    /// each time, so that neither falls behind.
    ///
    /// It reports a failure where either handler does, the gRPC handler's
    /// where both do. Otherwise it is ready when both handlers are, and
    /// pending when either is.
    pub fn poll_ready<E>(&self, grpc: Polled<Result<(), E>>, web: Polled<Result<(), E>>) -> (r:
        Polled<Result<(), E>>)
        ensures
            r == joint_readiness(grpc, web),
    {
        join_readiness(grpc, web)
    }

    /// Routes a request: hands it on, unchanged, to the gRPC handler where
    /// its first `content-type` value begins with `application/grpc`, and to
    /// the web handler otherwise. The other handler gets nothing.
    pub fn call(&self, request: Request<Body>) -> (routed: Routed<Request<Body>>)
        ensures
            routed == routed_to(branch_of_request(request), request),
    {
        match route_request(&request) {
            Branch::Grpc => Routed::Grpc(request),
            Branch::Web => Routed::Web(request),
        }
    }
}

/// Every request goes to exactly one handler, and goes there unchanged: to
/// the web handler where it has no `content-type` value or its first one
/// does not begin with `application/grpc`, to the gRPC handler where it
/// does, whatever follows the prefix.
pub proof fn lemma_call_reaches_one_handler(request: Request<Body>)
    ensures
        ({
            let content_type = first_value(headers_of(request), "content-type"@);
            let routed = routed_to(branch_of_request(request), request);
            &&& routed.request() == request
            &&& (content_type is None || !is_grpc_value(content_type->0)) ==> routed
                == Routed::Web(request)
            &&& (content_type is Some && is_grpc_value(content_type->0)) ==> routed
                == Routed::Grpc(request)
        }),
{
}

} // verus!
