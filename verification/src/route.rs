//! The routing rule: which handler a request goes to.

use hyper::header::HeaderValue;
use hyper::Body;
use hyper::HeaderMap;
use hyper::Request;
use vstd::prelude::*;

verus! {

/// The header map of the `http` crate. Nothing of its layout is known here:
/// it is read through [`first_value`] alone.
#[verifier::external_type_specification]
#[verifier::external_body]
#[verifier::reject_recursive_types(T)]
pub struct ExHeaderMap<T>(HeaderMap<T>);

/// A header value of the `http` crate, likewise kept closed.
#[verifier::external_type_specification]
#[verifier::external_body]
pub struct ExHeaderValue(HeaderValue);

/// A request of the `http` crate, likewise kept closed.
#[verifier::external_type_specification]
#[verifier::external_body]
#[verifier::reject_recursive_types(T)]
pub struct ExRequest<T>(Request<T>);

/// The streaming body of `hyper`, likewise kept closed.
#[verifier::external_type_specification]
#[verifier::external_body]
pub struct ExBody(Body);

/// The headers that `request` carries: what `Request::headers` refers to.
pub uninterp spec fn headers_of(request: Request<Body>) -> HeaderMap<HeaderValue>;

/// The headers of a request, through `Request::headers`.
///
/// Not proved: that what comes out is [`headers_of`] the request, which is
/// to say that it depends on nothing but the request.
#[verifier::external_body]
fn request_headers(request: &Request<Body>) -> (headers: &HeaderMap<HeaderValue>)
    ensures
        *headers == headers_of(*request),
{
    request.headers()
}

/// The bytes of the first value that `headers` holds under `name`, or `None`
/// where it holds no value under that name: what `HeaderMap::get` finds.
pub uninterp spec fn first_value(headers: HeaderMap<HeaderValue>, name: Seq<char>) -> Option<Seq<u8>>;

/// Looks `name` up with `HeaderMap::get` and hands out the bytes of the value
/// found, through `HeaderValue::as_bytes`.
///
/// Not proved: that the outcome is [`first_value`] of the map and the name,
/// which is to say that the lookup depends on nothing but these two.
#[verifier::external_body]
fn header_get<'a>(headers: &'a HeaderMap<HeaderValue>, name: &str) -> (r: Option<&'a [u8]>)
    ensures
        match r {
            Some(value) => first_value(*headers, name@) == Some(value@),
            None => first_value(*headers, name@) is None,
        },
{
    headers.get(name).map(|value| value.as_bytes())
}

/// One of the two handlers behind a multiplexer.
#[derive(Debug, Clone, Copy, PartialEq, Eq, Structural)]
pub enum Branch {
    /// The handler that serves gRPC calls.
    Grpc,
    /// The handler that serves every other request.
    Web,
}

/// The bytes of `application/grpc`.
pub const GRPC_CONTENT_TYPE: [u8; 16] = [
    97, 112, 112, 108, 105, 99, 97, 116, 105, 111, 110, 47, 103, 114, 112, 99,
];

/// The bytes of `application/grpc`, as a sequence.
pub open spec fn grpc_content_type() -> Seq<u8> {
    seq![97u8, 112, 112, 108, 105, 99, 97, 116, 105, 111, 110, 47, 103, 114, 112, 99]
}

/// Whether a header value marks a gRPC request: its first bytes are those of
/// `application/grpc`. Whatever follows them does not matter.
pub open spec fn is_grpc_value(value: Seq<u8>) -> bool {
    grpc_content_type().is_prefix_of(value)
}

/// The handler chosen for a request whose first `Content-Type` value is
/// `content_type`, or which has none.
pub open spec fn branch_of(content_type: Option<Seq<u8>>) -> Branch {
    match content_type {
        Some(value) => if is_grpc_value(value) {
            Branch::Grpc
        } else {
            Branch::Web
        },
        None => Branch::Web,
    }
}

/// Whether `value` begins with `prefix`.
pub fn starts_with(value: &[u8], prefix: &[u8]) -> (r: bool)
    ensures
        r == prefix@.is_prefix_of(value@),
{
    if value.len() < prefix.len() {
        return false;
    }
    let mut i: usize = 0;
    while i < prefix.len()
        invariant
            i <= prefix.len() <= value.len(),
            forall|j: int| 0 <= j < i ==> value@[j] == prefix@[j],
        decreases prefix.len() - i,
    {
        if value[i] != prefix[i] {
            assert(value@.subrange(0, prefix@.len() as int)[i as int] != prefix@[i as int]);
            return false;
        }
        i += 1;
    }
    assert(value@.subrange(0, prefix@.len() as int) =~= prefix@);
    true
}

/// Whether a `Content-Type` value asks for the gRPC handler.
pub fn is_grpc(value: &[u8]) -> (r: bool)
    ensures
        r == is_grpc_value(value@),
{
    let prefix = GRPC_CONTENT_TYPE;
    assert(prefix@ =~= grpc_content_type());
    starts_with(value, prefix.as_slice())
}

/// Chooses the handler for a request from its first `Content-Type` value,
/// `None` standing for a request without that header.
pub fn select_branch(content_type: Option<&[u8]>) -> (branch: Branch)
    ensures
        branch == branch_of(
            match content_type {
                Some(value) => Some(value@),
                None => None,
            },
        ),
{
    match content_type {
        Some(value) => if is_grpc(value) {
            Branch::Grpc
        } else {
            Branch::Web
        },
        None => Branch::Web,
    }
}

/// Chooses the handler for a request from its headers: the gRPC handler
/// where the first `content-type` value begins with `application/grpc`, the
/// web handler otherwise.
pub fn route(headers: &HeaderMap<HeaderValue>) -> (branch: Branch)
    ensures
        branch == branch_of(first_value(*headers, "content-type"@)),
{
    select_branch(header_get(headers, "content-type"))
}

/// A request goes to the web handler exactly when it has no `Content-Type`
/// value or its first one does not begin with `application/grpc`; every
/// other request goes to the gRPC handler.
pub proof fn lemma_web_unless_grpc_prefix(content_type: Option<Seq<u8>>)
    ensures
        branch_of(content_type) == Branch::Web <==> (content_type matches Some(value)
            ==> !grpc_content_type().is_prefix_of(value)),
        branch_of(content_type) == Branch::Grpc <==> (content_type matches Some(value)
            && grpc_content_type().is_prefix_of(value)),
{
}

/// A `Content-Type` of `application/grpc` goes to the gRPC handler, whatever
/// is written behind it.
pub proof fn lemma_grpc_with_any_suffix(suffix: Seq<u8>)
    ensures
        branch_of(Some(grpc_content_type() + suffix)) == Branch::Grpc,
{
    let value = grpc_content_type() + suffix;
    assert(value.subrange(0, grpc_content_type().len() as int) =~= grpc_content_type());
}

/// The handler that `request` is for, by its headers.
pub open spec fn branch_of_request(request: Request<Body>) -> Branch {
    branch_of(first_value(headers_of(request), "content-type"@))
}

/// Chooses the handler for a request, by its headers as [`route`] does.
pub fn route_request(request: &Request<Body>) -> (branch: Branch)
    ensures
        branch == branch_of_request(*request),
{
    route(request_headers(request))
}

} // verus!
