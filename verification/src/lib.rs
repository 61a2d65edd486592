//! Routing between a gRPC handler and a second handler for everything else.
//!
//! A [`Multiplexer`] owns two handlers and picks one of them for each request
//! by looking at the `Content-Type` header: a value that starts with
//! `application/grpc` selects the gRPC handler, anything else (or no header at
//! all) selects the web handler. The two handlers may answer with different
//! body types, so the answer is carried in an [`EncapsulatedBody`], and the
//! pending call in an [`EncapsulatedFuture`]. A [`MakeMultiplexer`] builds one
//! multiplexer per connection out of two handler factories.
//!
//! The functions here are the decisions of those components, written over
//! plain values: what a handler reported goes in, what the multiplexer reports
//! comes out. Driving the handlers themselves is left to the caller.

pub mod body;
pub mod future;
pub mod make;
pub mod multiplexer;
pub mod poll;
pub mod ready;
pub mod route;

pub use body::EncapsulatedBody;
pub use future::EncapsulatedFuture;
pub use make::MakeMultiplexer;
pub use make::MakeMultiplexerFuture;
pub use multiplexer::Multiplexer;
