//! Serving objects of an S3 bucket as HTTP responses.
//!
//! The crate holds the decisions of such a service: how a request path becomes
//! an object key, which requests are answered without a fetch, how the outcome
//! of a fetch becomes a response, and how the bytes of an object are cut into
//! the chunks of a streamed body. The calls that wait on the network or on a
//! reader are made by the caller, who hands their outcomes in as plain values.

pub mod adapter;
pub mod builder;
pub mod error;
pub mod key;
pub mod origin;
pub mod response;
pub mod service;

pub use adapter::{ChunkStream, Polled, ReadOutcome, CHUNK_SIZE};
pub use builder::S3OriginBuilder;
pub use error::{FetchFailure, S3Error};
pub use key::request_to_key;
pub use origin::{ClientSource, S3Origin};
pub use response::{wrap_create_response, Body, ObjectMeta, Response};
pub use service::{make_request_builder, GetObject, RangeHeader, Request, Step};
