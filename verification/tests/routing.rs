use hyper::header::{HeaderValue, CONTENT_TYPE};
use hyper::{Body, HeaderMap, Request};
use multiplex_tonic_hyper::multiplexer::Routed;
use multiplex_tonic_hyper::route::{
    is_grpc, route, route_request, select_branch, starts_with, Branch, GRPC_CONTENT_TYPE,
};
use multiplex_tonic_hyper::Multiplexer;

fn request_with(content_type: Option<&'static str>) -> Request<Body> {
    match content_type {
        Some(value) => Request::builder()
            .uri("/some/path")
            .header(CONTENT_TYPE, value)
            .body(Body::empty())
            .unwrap(),
        None => Request::builder().uri("/some/path").body(Body::empty()).unwrap(),
    }
}

#[test]
fn grpc_content_type_is_the_text_application_grpc() {
    assert_eq!(&GRPC_CONTENT_TYPE[..], "application/grpc".as_bytes());
}

#[test]
fn starts_with_matches_prefixes_only() {
    assert!(starts_with(b"hello world", b"hello"));
    assert!(starts_with(b"hello", b"hello"));
    assert!(starts_with(b"hello", b""));
    assert!(starts_with(b"", b""));
    assert!(!starts_with(b"hell", b"hello"));
    assert!(!starts_with(b"", b"h"));
    assert!(!starts_with(b"hexlo world", b"hello"));
    assert!(!starts_with(b"world hello", b"hello"));
}

#[test]
fn is_grpc_accepts_the_plain_content_type() {
    assert!(is_grpc(b"application/grpc"));
}

#[test]
fn is_grpc_accepts_any_suffix() {
    assert!(is_grpc(b"application/grpc+proto"));
    assert!(is_grpc(b"application/grpc+json"));
    assert!(is_grpc(b"application/grpc-web"));
    assert!(is_grpc(b"application/grpc; charset=utf-8"));
}

#[test]
fn is_grpc_rejects_other_values() {
    assert!(!is_grpc(b""));
    assert!(!is_grpc(b"application/grp"));
    assert!(!is_grpc(b"application/json"));
    assert!(!is_grpc(b"text/html"));
    assert!(!is_grpc(b" application/grpc"));
    assert!(!is_grpc(b"Application/grpc"));
    assert!(!is_grpc(b"APPLICATION/GRPC"));
    assert!(!is_grpc(b"xapplication/grpc"));
}

#[test]
fn select_branch_without_header_is_web() {
    assert_eq!(select_branch(None), Branch::Web);
}

#[test]
fn select_branch_by_value() {
    assert_eq!(select_branch(Some(b"application/grpc")), Branch::Grpc);
    assert_eq!(select_branch(Some(b"application/grpc+proto")), Branch::Grpc);
    assert_eq!(select_branch(Some(b"application/json")), Branch::Web);
    assert_eq!(select_branch(Some(b"")), Branch::Web);
}

#[test]
fn route_reads_the_content_type_header() {
    let mut headers = HeaderMap::new();
    assert_eq!(route(&headers), Branch::Web);

    headers.insert("accept", HeaderValue::from_static("application/grpc"));
    assert_eq!(route(&headers), Branch::Web);

    headers.insert(CONTENT_TYPE, HeaderValue::from_static("application/grpc"));
    assert_eq!(route(&headers), Branch::Grpc);

    headers.insert(CONTENT_TYPE, HeaderValue::from_static("text/plain"));
    assert_eq!(route(&headers), Branch::Web);
}

#[test]
fn route_goes_by_the_first_of_several_values() {
    let mut grpc_first = HeaderMap::new();
    grpc_first.append(CONTENT_TYPE, HeaderValue::from_static("application/grpc+proto"));
    grpc_first.append(CONTENT_TYPE, HeaderValue::from_static("text/plain"));
    assert_eq!(route(&grpc_first), Branch::Grpc);

    let mut web_first = HeaderMap::new();
    web_first.append(CONTENT_TYPE, HeaderValue::from_static("text/plain"));
    web_first.append(CONTENT_TYPE, HeaderValue::from_static("application/grpc"));
    assert_eq!(route(&web_first), Branch::Web);
}

#[test]
fn route_takes_values_that_are_not_text() {
    let mut headers = HeaderMap::new();
    headers.insert(CONTENT_TYPE, HeaderValue::from_bytes(b"application/grpc\xff\xfe").unwrap());
    assert_eq!(route(&headers), Branch::Grpc);

    let mut other = HeaderMap::new();
    other.insert(CONTENT_TYPE, HeaderValue::from_bytes(b"\xffapplication/grpc").unwrap());
    assert_eq!(route(&other), Branch::Web);
}

#[test]
fn route_request_follows_the_headers() {
    assert_eq!(route_request(&request_with(None)), Branch::Web);
    assert_eq!(route_request(&request_with(Some("application/grpc"))), Branch::Grpc);
    assert_eq!(route_request(&request_with(Some("application/grpc+proto"))), Branch::Grpc);
    assert_eq!(route_request(&request_with(Some("application/json"))), Branch::Web);
}

#[test]
fn call_without_content_type_goes_to_web() {
    let multiplexer = Multiplexer::new("grpc", "web");
    match multiplexer.call(request_with(None)) {
        Routed::Web(request) => {
            assert_eq!(request.uri().path(), "/some/path");
            assert!(request.headers().is_empty());
        }
        Routed::Grpc(_) => panic!("a request without a content type is no gRPC call"),
    }
}

#[test]
fn call_with_other_content_type_goes_to_web() {
    let multiplexer = Multiplexer::new("grpc", "web");
    let routed = multiplexer.call(request_with(Some("text/html")));
    assert_eq!(routed.branch(), Branch::Web);
    match routed {
        Routed::Web(request) => {
            assert_eq!(request.headers().get(CONTENT_TYPE).unwrap(), "text/html");
        }
        Routed::Grpc(_) => panic!("text/html is no gRPC call"),
    }
}

#[test]
fn call_with_grpc_content_type_goes_to_grpc() {
    let multiplexer = Multiplexer::new("grpc", "web");
    let routed = multiplexer.call(request_with(Some("application/grpc")));
    assert_eq!(routed.branch(), Branch::Grpc);
    match routed {
        Routed::Grpc(request) => {
            assert_eq!(request.uri().path(), "/some/path");
            assert_eq!(request.headers().get(CONTENT_TYPE).unwrap(), "application/grpc");
        }
        Routed::Web(_) => panic!("application/grpc is a gRPC call"),
    }
}

#[test]
fn call_with_grpc_suffix_goes_to_grpc() {
    let multiplexer = Multiplexer::new("grpc", "web");
    let routed = multiplexer.call(request_with(Some("application/grpc+proto")));
    assert_eq!(routed.branch(), Branch::Grpc);
}

#[test]
fn call_routes_each_request_on_its_own() {
    let multiplexer = Multiplexer::new("grpc", "web");
    assert_eq!(multiplexer.call(request_with(Some("application/grpc"))).branch(), Branch::Grpc);
    assert_eq!(multiplexer.call(request_with(None)).branch(), Branch::Web);
    assert_eq!(multiplexer.call(request_with(Some("application/grpc"))).branch(), Branch::Grpc);
}
