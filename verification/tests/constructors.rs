use std::convert::Infallible;
use std::future::ready;

use hyper::service::service_fn;
use hyper::{Body, Request, Response};
use multiplex_tonic_hyper::{MakeMultiplexer, Multiplexer};

#[test]
fn new_multiplex_receives_two_services() {
    let generate_service = |string: &'static str| {
        service_fn(|_req: Request<Body>| {
            ready(Ok::<Response<Body>, Infallible>(Response::new(Body::from(
                string.to_owned(),
            ))))
        })
    };
    let service_1 = generate_service("Service 1");
    let service_2 = generate_service("Service 2");

    let _multiplex = Multiplexer::new(service_1, service_2);
}

#[test]
fn make_multiplexer_receives_two_make_service_impl_make_service() {
    let make_grpc = tower::make::Shared::new(service_fn(|_req: Request<Body>| async {
        Ok::<_, Infallible>(Response::new(Body::from("service")))
    }));
    let make_web = tower::make::Shared::new(service_fn(|_req: Request<Body>| async {
        Ok::<_, Infallible>(Response::new(Body::from("service")))
    }));

    let _make_multiplexer = MakeMultiplexer::new(make_grpc, make_web);
}

#[test]
fn multiplexer_keeps_its_two_handlers_apart() {
    let mut multiplexer = Multiplexer::new(String::from("grpc"), 7u32);
    assert_eq!(multiplexer.grpc(), "grpc");
    assert_eq!(*multiplexer.web(), 7);

    multiplexer.grpc_mut().push_str(" handler");
    *multiplexer.web_mut() += 1;
    assert_eq!(multiplexer.grpc(), "grpc handler");
    assert_eq!(*multiplexer.web(), 8);

    let (grpc, web) = multiplexer.into_parts();
    assert_eq!(grpc, "grpc handler");
    assert_eq!(web, 8);
}

#[test]
fn make_multiplexer_keeps_its_two_factories_apart() {
    let mut make = MakeMultiplexer::new(vec![1u8], vec![2u8]);
    make.make_grpc_mut().push(10);
    make.make_web_mut().push(20);
    assert_eq!(*make.make_grpc_mut(), vec![1, 10]);
    assert_eq!(*make.make_web_mut(), vec![2, 20]);
}

#[test]
fn make_multiplexer_call_duplicates_the_target() {
    let make = MakeMultiplexer::new((), ());
    let (for_grpc, for_web) = make.call(String::from("127.0.0.1:9999"));
    assert_eq!(for_grpc, "127.0.0.1:9999");
    assert_eq!(for_web, "127.0.0.1:9999");

    let (for_grpc, for_web) = make.call(());
    assert_eq!(for_grpc, ());
    assert_eq!(for_web, ());
}
