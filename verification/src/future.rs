//! One type for the pending calls of both handlers.

use crate::body::EncapsulatedBody;
use crate::body::Reply;
use crate::poll::Polled;
use crate::route::Branch;
use vstd::prelude::*;

verus! {

/// A pending call, marked with the handler that it was made to.
///
/// The mark is set when the request is routed and never looked at again: a
/// call made to the gRPC handler is answered by the gRPC handler.
#[derive(Debug, PartialEq, Eq)]
pub enum EncapsulatedFuture<GrpcFuture, WebFuture> {
    /// A call made to the gRPC handler.
    Grpc(GrpcFuture),
    /// A call made to the web handler.
    Web(WebFuture),
}

impl<GrpcFuture, WebFuture> EncapsulatedFuture<GrpcFuture, WebFuture> {
    /// The handler that the call was made to.
    pub open spec fn branch_spec(&self) -> Branch {
        match self {
            EncapsulatedFuture::Grpc(_) => Branch::Grpc,
            EncapsulatedFuture::Web(_) => Branch::Web,
        }
    }

    /// The handler that the call was made to, which is the only one to ask
    /// for the answer.
    #[verifier::when_used_as_spec(branch_spec)]
    pub fn branch(&self) -> (branch: Branch)
        ensures
            branch == self.branch_spec(),
    {
        match self {
            EncapsulatedFuture::Grpc(_) => Branch::Grpc,
            EncapsulatedFuture::Web(_) => Branch::Web,
        }
    }
}

/// What asking a pending call for its answer gives: the answer, a failure,
/// or nothing yet.
pub type Outcome<H, B, E> = Polled<Result<Reply<H, B>, E>>;

/// What a marked call gives, given what the handler behind the mark gave: a
/// wait stays a wait, a failure stays the same failure, and an answer keeps
/// its head while its body takes the mark of the call.
pub open spec fn unified<H, GrpcBody, WebBody, E>(
    call: EncapsulatedFuture<Outcome<H, GrpcBody, E>, Outcome<H, WebBody, E>>,
) -> Outcome<H, EncapsulatedBody<GrpcBody, WebBody>, E> {
    match call {
        EncapsulatedFuture::Grpc(Polled::Ready(Ok(reply))) => Polled::Ready(
            Ok(Reply { head: reply.head, body: EncapsulatedBody::Grpc(reply.body) }),
        ),
        EncapsulatedFuture::Web(Polled::Ready(Ok(reply))) => Polled::Ready(
            Ok(Reply { head: reply.head, body: EncapsulatedBody::Web(reply.body) }),
        ),
        EncapsulatedFuture::Grpc(Polled::Ready(Err(e))) => Polled::Ready(Err(e)),
        EncapsulatedFuture::Web(Polled::Ready(Err(e))) => Polled::Ready(Err(e)),
        EncapsulatedFuture::Grpc(Polled::Pending) => Polled::Pending,
        EncapsulatedFuture::Web(Polled::Pending) => Polled::Pending,
    }
}

impl<H, GrpcBody, WebBody, E> EncapsulatedFuture<
    Outcome<H, GrpcBody, E>,
    Outcome<H, WebBody, E>,
> {
    /// Turns what the handler behind the mark gave into what the marked call
    /// gives.
    pub fn poll(self) -> (outcome: Outcome<H, EncapsulatedBody<GrpcBody, WebBody>, E>)
        ensures
            outcome == unified(self),
    {
        match self {
            EncapsulatedFuture::Grpc(inner) => match inner {
                Polled::Ready(Ok(reply)) => Polled::Ready(Ok(EncapsulatedBody::map_grpc(reply))),
                Polled::Ready(Err(e)) => Polled::Ready(Err(e)),
                Polled::Pending => Polled::Pending,
            },
            EncapsulatedFuture::Web(inner) => match inner {
                Polled::Ready(Ok(reply)) => Polled::Ready(Ok(EncapsulatedBody::map_web(reply))),
                Polled::Ready(Err(e)) => Polled::Ready(Err(e)),
                Polled::Pending => Polled::Pending,
            },
        }
    }
}

/// An answer that comes out of a marked call carries a body with the mark of
/// the call, and the head that the handler gave.
pub proof fn lemma_answer_keeps_branch<H, GrpcBody, WebBody, E>(
    call: EncapsulatedFuture<Outcome<H, GrpcBody, E>, Outcome<H, WebBody, E>>,
)
    ensures
        unified(call) matches Polled::Ready(Ok(reply)) ==> reply.body.branch_spec()
            == call.branch_spec(),
        unified(call) is Pending <==> (match call {
            EncapsulatedFuture::Grpc(inner) => inner is Pending,
            EncapsulatedFuture::Web(inner) => inner is Pending,
        }),
{
}

} // verus!
