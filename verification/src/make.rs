//! Building a multiplexer out of two handler factories.

use crate::multiplexer::Multiplexer;
use crate::poll::Polled;
use crate::ready::join_readiness;
use crate::ready::joint_readiness;
use futures::future::Join;
use std::future::Future;
use vstd::future::FutureAdditionalSpecFns;
use vstd::prelude::*;

verus! {

/// Two handler factories behind one front, which builds a [`Multiplexer`]
/// for each target out of the handlers that the two of them build.
pub struct MakeMultiplexer<MakeGrpc, MakeWeb> {
    make_grpc: MakeGrpc,
    make_web: MakeWeb,
}

impl<MakeGrpc, MakeWeb> MakeMultiplexer<MakeGrpc, MakeWeb> {
    /// The factory of gRPC handlers.
    pub closed spec fn make_grpc_spec(&self) -> MakeGrpc {
        self.make_grpc
    }

    /// The factory of web handlers.
    pub closed spec fn make_web_spec(&self) -> MakeWeb {
        self.make_web
    }

    /// Puts two handler factories behind one front.
    pub fn new(make_grpc: MakeGrpc, make_web: MakeWeb) -> (make: Self)
        ensures
            make.make_grpc_spec() == make_grpc,
            make.make_web_spec() == make_web,
    {
        MakeMultiplexer { make_grpc, make_web }
    }

    /// The factory of gRPC handlers, to call it.
    pub fn make_grpc_mut(&mut self) -> (make_grpc: &mut MakeGrpc)
        ensures
            *make_grpc == old(self).make_grpc_spec(),
            final(self).make_grpc_spec() == *final(make_grpc),
            final(self).make_web_spec() == old(self).make_web_spec(),
    {
        &mut self.make_grpc
    }

    /// The factory of web handlers, to call it.
    pub fn make_web_mut(&mut self) -> (make_web: &mut MakeWeb)
        ensures
            *make_web == old(self).make_web_spec(),
            final(self).make_web_spec() == *final(make_web),
            final(self).make_grpc_spec() == old(self).make_grpc_spec(),
    {
        &mut self.make_web
    }

    /// What the two factories report of their readiness together, given what
    /// each has just reported alone: a failure where either fails, the gRPC
    /// factory's where both do; otherwise ready when both are, and pending
    /// when either is.
    pub fn poll_ready<E>(&self, grpc: Polled<Result<(), E>>, web: Polled<Result<(), E>>) -> (r:
        Polled<Result<(), E>>)
        ensures
            r == joint_readiness(grpc, web),
    {
        join_readiness(grpc, web)
    }

    /// Makes two targets of one, the first for the factory of gRPC handlers
    /// and the second for the factory of web handlers. The second is the
    /// target that came in, the first a clone of it.
    pub fn call<Target: Clone>(&self, target: Target) -> (targets: (Target, Target))
        ensures
            cloned(target, targets.0),
            targets.1 == target,
    {
        let for_grpc = target.clone();
        (for_grpc, target)
    }
}

/// Why no multiplexer could be built.
#[derive(Debug, PartialEq, Eq)]
pub enum BuildError<E> {
    /// The gRPC handler could not be built; the web handler could.
    Grpc(E),
    /// The web handler could not be built; the gRPC handler could.
    Web(E),
    /// Neither handler could be built. The error of the gRPC side comes
    /// first, that of the web side second.
    Both(E, E),
}

impl<E> BuildError<E> {
    /// The error to report where only one can be: that of the gRPC side
    /// where it failed, that of the web side otherwise.
    pub open spec fn first_spec(&self) -> E {
        match self {
            BuildError::Grpc(e) => *e,
            BuildError::Web(e) => *e,
            BuildError::Both(e, _) => *e,
        }
    }

    /// The error of the web side where both sides failed, which
    /// [`first`](Self::first) leaves out.
    pub open spec fn second_spec(&self) -> Option<E> {
        match self {
            BuildError::Both(_, e) => Some(*e),
            _ => None,
        }
    }

    /// The error to report where only one can be: that of the gRPC side
    /// where it failed, that of the web side otherwise.
    pub fn first(&self) -> (e: &E)
        ensures
            *e == self.first_spec(),
    {
        match self {
            BuildError::Grpc(e) => e,
            BuildError::Web(e) => e,
            BuildError::Both(e, _) => e,
        }
    }

    /// The error of the web side where both sides failed.
    pub fn second(&self) -> (e: Option<&E>)
        ensures
            match e {
                Some(e) => self.second_spec() == Some(*e),
                None => self.second_spec() is None,
            },
    {
        match self {
            BuildError::Both(_, e) => Some(e),
            _ => None,
        }
    }

    /// Splits the error into the one to report and, where both sides
    /// failed, the one behind it.
    pub fn into_errors(self) -> (errors: (E, Option<E>))
        ensures
            errors.0 == self.first_spec(),
            errors.1 == self.second_spec(),
    {
        match self {
            BuildError::Grpc(e) => (e, None),
            BuildError::Web(e) => (e, None),
            BuildError::Both(e, other) => (e, Some(other)),
        }
    }
}

/// What asking the paired constructions gives: nothing yet, or what each of
/// the two came to, the gRPC side first.
pub type Joined<Grpc, Web, E> = Polled<(Result<Grpc, E>, Result<Web, E>)>;

/// The pair of two pending computations, of the `futures` crate.
#[verifier::external_type_specification]
#[verifier::external_body]
#[verifier::reject_recursive_types(Fut1)]
#[verifier::reject_recursive_types(Fut2)]
pub struct ExJoin<Fut1: Future, Fut2: Future>(Join<Fut1, Fut2>);

/// `futures::future::join` pairs two pending computations. The pair finishes
/// once both of them have, with the value of the first and the value of the
/// second, in this order.
pub assume_specification<Fut1, Fut2>[ futures::future::join::<Fut1, Fut2> ](
    future1: Fut1,
    future2: Fut2,
) -> (joined: Join<Fut1, Fut2>) where Fut1: Future, Fut2: Future
    ensures
        joined@ == (future1@, future2@),
;

/// The pending construction of a multiplexer: the constructions of its two
/// handlers, going on side by side.
#[verifier::reject_recursive_types(MakeGrpcFuture)]
#[verifier::reject_recursive_types(MakeWebFuture)]
pub struct MakeMultiplexerFuture<MakeGrpcFuture: Future, MakeWebFuture: Future> {
    inner: Join<MakeGrpcFuture, MakeWebFuture>,
}

impl<MakeGrpcFuture: Future, MakeWebFuture: Future> MakeMultiplexerFuture<
    MakeGrpcFuture,
    MakeWebFuture,
> {
    /// The two constructions as one pending computation.
    pub closed spec fn joined(&self) -> Join<MakeGrpcFuture, MakeWebFuture> {
        self.inner
    }

    /// Pairs the constructions of the two handlers.
    pub fn new(make_grpc_future: MakeGrpcFuture, make_web_future: MakeWebFuture) -> (pending: Self)
        ensures
            pending.joined()@ == (make_grpc_future@, make_web_future@),
    {
        MakeMultiplexerFuture { inner: futures::future::join(make_grpc_future, make_web_future) }
    }

    /// Gives the paired constructions out, to be driven.
    pub fn into_inner(self) -> (joined: Join<MakeGrpcFuture, MakeWebFuture>)
        ensures
            joined == self.joined(),
    {
        self.inner
    }
}

/// Turns what the paired constructions gave into what the construction of
/// the multiplexer gives.
///
/// While the pair is pending, so is the multiplexer: it is built only once
/// both sides have come to an end. Where both handlers were built, they are
/// put behind one front. Where one side failed, its error is reported, and
/// where both did, both errors are.
pub fn poll_joined<Grpc, Web, E>(joined: Joined<Grpc, Web, E>) -> (built: Polled<
    Result<Multiplexer<Grpc, Web>, BuildError<E>>,
>)
    ensures
        match joined {
            Polled::Pending => built is Pending,
            Polled::Ready((Ok(grpc), Ok(web))) => built matches Polled::Ready(Ok(multiplexer))
                && multiplexer.grpc_spec() == grpc && multiplexer.web_spec() == web,
            Polled::Ready((Err(e), Ok(_))) => built matches Polled::Ready(Err(error)) && error
                == BuildError::Grpc(e),
            Polled::Ready((Ok(_), Err(e))) => built matches Polled::Ready(Err(error)) && error
                == BuildError::Web(e),
            Polled::Ready((Err(e), Err(other))) => built matches Polled::Ready(Err(error))
                && error == BuildError::Both(e, other),
        },
{
    match joined {
        Polled::Pending => Polled::Pending,
        Polled::Ready((grpc, web)) => match grpc {
            Ok(grpc) => match web {
                Ok(web) => Polled::Ready(Ok(Multiplexer::new(grpc, web))),
                Err(e) => Polled::Ready(Err(BuildError::Web(e))),
            },
            Err(e) => match web {
                Ok(_) => Polled::Ready(Err(BuildError::Grpc(e))),
                Err(other) => Polled::Ready(Err(BuildError::Both(e, other))),
            },
        },
    }
}

} // verus!
