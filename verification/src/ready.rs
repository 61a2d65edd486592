//! Readiness of two handlers taken together.

use crate::poll::Polled;
use vstd::prelude::*;

verus! {

/// What two handlers report together, given what each reports alone.
///
/// A failure of either one is the joint report, and the gRPC handler's
/// failure is the one reported where both fail. Without a failure the two
/// are ready together only when each of them is ready.
pub open spec fn joint_readiness<E>(
    grpc: Polled<Result<(), E>>,
    web: Polled<Result<(), E>>,
) -> Polled<Result<(), E>> {
    match (grpc, web) {
        (Polled::Ready(Err(e)), _) => Polled::Ready(Err(e)),
        (_, Polled::Ready(Err(e))) => Polled::Ready(Err(e)),
        (Polled::Ready(Ok(_)), Polled::Ready(Ok(_))) => Polled::Ready(Ok(())),
        _ => Polled::Pending,
    }
}

/// Whether a handler reported a failure.
pub open spec fn has_failed<E>(report: Polled<Result<(), E>>) -> bool {
    report matches Polled::Ready(Err(_))
}

/// Whether a handler reported that it can take a call.
pub open spec fn is_ready<E>(report: Polled<Result<(), E>>) -> bool {
    report matches Polled::Ready(Ok(_))
}

/// Combines the reports of the two handlers into one.
pub fn join_readiness<E>(grpc: Polled<Result<(), E>>, web: Polled<Result<(), E>>) -> (r: Polled<
    Result<(), E>,
>)
    ensures
        r == joint_readiness(grpc, web),
{
    match grpc {
        Polled::Ready(Err(e)) => Polled::Ready(Err(e)),
        Polled::Ready(Ok(_)) => match web {
            Polled::Ready(Err(e)) => Polled::Ready(Err(e)),
            Polled::Ready(Ok(_)) => Polled::Ready(Ok(())),
            Polled::Pending => Polled::Pending,
        },
        Polled::Pending => match web {
            Polled::Ready(Err(e)) => Polled::Ready(Err(e)),
            _ => Polled::Pending,
        },
    }
}

/// Two handlers are ready together exactly when each of them is ready.
pub proof fn lemma_ready_iff_both_ready<E>(grpc: Polled<Result<(), E>>, web: Polled<Result<(), E>>)
    ensures
        is_ready(joint_readiness(grpc, web)) <==> is_ready(grpc) && is_ready(web),
{
}

/// Where neither handler has failed and one of them is pending, the two are
/// pending together.
pub proof fn lemma_pending_if_either_pending<E>(
    grpc: Polled<Result<(), E>>,
    web: Polled<Result<(), E>>,
)
    requires
        !has_failed(grpc),
        !has_failed(web),
        grpc is Pending || web is Pending,
    ensures
        joint_readiness(grpc, web) is Pending,
{
}

/// A failure of either handler is a failure of the two together, and no
/// failure is reported that neither handler reported.
pub proof fn lemma_failure_iff_either_failed<E>(
    grpc: Polled<Result<(), E>>,
    web: Polled<Result<(), E>>,
)
    ensures
        has_failed(joint_readiness(grpc, web)) <==> has_failed(grpc) || has_failed(web),
        joint_readiness(grpc, web) matches Polled::Ready(Err(e)) ==> grpc == Polled::Ready(
            Err::<(), E>(e),
        ) || web == Polled::Ready(Err::<(), E>(e)),
{
}

/// Where exactly one handler fails, its error is the one reported, whichever
/// of the two it is.
pub proof fn lemma_single_failure_is_reported<E>(
    grpc: Polled<Result<(), E>>,
    web: Polled<Result<(), E>>,
    error: E,
)
    requires
        (grpc == Polled::Ready(Err::<(), E>(error)) && !has_failed(web)) || (web == Polled::Ready(
            Err::<(), E>(error),
        ) && !has_failed(grpc)),
    ensures
        joint_readiness(grpc, web) == Polled::Ready(Err::<(), E>(error)),
{
}

} // verus!
