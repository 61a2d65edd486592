//! One body type for the answers of both handlers.

use crate::poll::Polled;
use crate::route::Branch;
use vstd::prelude::*;

verus! {

/// An answer: what precedes the body (status, headers and the like), and the
/// body. The head is carried along and never looked into.
#[derive(Debug, PartialEq, Eq)]
pub struct Reply<H, B> {
    /// Status, headers and whatever else precedes the body.
    pub head: H,
    /// The body.
    pub body: B,
}

/// The body of an answer, marked with the handler that produced it.
///
/// The mark is set when the value is made and nothing here changes it: a
/// body of the gRPC handler stays one until it is dropped.
#[derive(Debug, PartialEq, Eq)]
pub enum EncapsulatedBody<GrpcBody, WebBody> {
    /// A body that the gRPC handler produced.
    Grpc(GrpcBody),
    /// A body that the web handler produced.
    Web(WebBody),
}

impl<GrpcBody, WebBody> EncapsulatedBody<GrpcBody, WebBody> {
    /// The handler that the body came from.
    pub open spec fn branch_spec(&self) -> Branch {
        match self {
            EncapsulatedBody::Grpc(_) => Branch::Grpc,
            EncapsulatedBody::Web(_) => Branch::Web,
        }
    }

    /// The handler that the body came from.
    #[verifier::when_used_as_spec(branch_spec)]
    pub fn branch(&self) -> (branch: Branch)
        ensures
            branch == self.branch_spec(),
    {
        match self {
            EncapsulatedBody::Grpc(_) => Branch::Grpc,
            EncapsulatedBody::Web(_) => Branch::Web,
        }
    }

    /// Marks the body of an answer of the gRPC handler and leaves its head
    /// as it is.
    pub fn map_grpc<H>(response: Reply<H, GrpcBody>) -> (mapped: Reply<H, Self>)
        ensures
            mapped.head == response.head,
            mapped.body == EncapsulatedBody::<GrpcBody, WebBody>::Grpc(response.body),
    {
        Reply { head: response.head, body: EncapsulatedBody::Grpc(response.body) }
    }

    /// Marks the body of an answer of the web handler and leaves its head as
    /// it is.
    pub fn map_web<H>(response: Reply<H, WebBody>) -> (mapped: Reply<H, Self>)
        ensures
            mapped.head == response.head,
            mapped.body == EncapsulatedBody::<GrpcBody, WebBody>::Web(response.body),
    {
        Reply { head: response.head, body: EncapsulatedBody::Web(response.body) }
    }
}

/// What one request for the next chunk of a body gives: a chunk, a failure,
/// the end of the body (`None`), or nothing yet.
pub type Frame<D, E> = Polled<Option<Result<D, E>>>;

/// What one request for the trailers of a body gives: the trailers, if the
/// body has any, a failure, or nothing yet.
pub type Trailers<T, E> = Polled<Result<Option<T>, E>>;

/// What lies under the mark, where both handlers give the same type.
pub open spec fn unmarked<T>(marked: EncapsulatedBody<T, T>) -> T {
    match marked {
        EncapsulatedBody::Grpc(inner) => inner,
        EncapsulatedBody::Web(inner) => inner,
    }
}

/// `inner` under the mark of `branch`.
pub open spec fn marked<T>(branch: Branch, inner: T) -> EncapsulatedBody<T, T> {
    match branch {
        Branch::Grpc => EncapsulatedBody::Grpc(inner),
        Branch::Web => EncapsulatedBody::Web(inner),
    }
}

impl<D, E> EncapsulatedBody<Frame<D, E>, Frame<D, E>> {
    /// Hands on what the marked body gave when it was asked for its next
    /// chunk: the same chunk, failure, end or wait, whichever handler the
    /// body belongs to.
    pub fn poll_data(self) -> (frame: Frame<D, E>)
        ensures
            frame == unmarked(self),
    {
        match self {
            EncapsulatedBody::Grpc(frame) => frame,
            EncapsulatedBody::Web(frame) => frame,
        }
    }
}

impl<T, E> EncapsulatedBody<Trailers<T, E>, Trailers<T, E>> {
    /// Hands on what the marked body gave when it was asked for its
    /// trailers, unchanged.
    pub fn poll_trailers(self) -> (trailers: Trailers<T, E>)
        ensures
            trailers == unmarked(self),
    {
        match self {
            EncapsulatedBody::Grpc(trailers) => trailers,
            EncapsulatedBody::Web(trailers) => trailers,
        }
    }
}

/// A body read through its mark gives what the body itself gives: the same
/// frames, as many of them and in the same order, whichever handler the body
/// belongs to.
pub proof fn lemma_frames_pass_unchanged<D, E>(branch: Branch, frames: Seq<Frame<D, E>>)
    ensures
        frames.map_values(|frame: Frame<D, E>| unmarked(marked(branch, frame))) == frames,
{
    assert(frames.map_values(|frame: Frame<D, E>| unmarked(marked(branch, frame))) =~= frames);
}

/// The trailers of a body read through its mark are the trailers of the body
/// itself, whichever handler the body belongs to.
pub proof fn lemma_trailers_pass_unchanged<T, E>(branch: Branch, trailers: Trailers<T, E>)
    ensures
        unmarked(marked(branch, trailers)) == trailers,
        marked(branch, trailers).branch_spec() == branch,
{
}

} // verus!
