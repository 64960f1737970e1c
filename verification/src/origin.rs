//! The origin: one bucket of an object store, served under a prefix.
//!
//! An origin is built once and then only read. Every handle on it shares the
//! same settings.

use std::sync::Arc;
use vstd::prelude::*;

verus! {

/// The client of the object store, of the crate `aws-sdk-s3`. The origin
/// carries it and never looks inside.
#[verifier::external_type_specification]
#[verifier::external_body]
pub struct ExClient(aws_sdk_s3::Client);

/// The shared configuration of the AWS SDK, as `aws-config` hands it on. The
/// origin carries it and never looks inside.
#[verifier::external_type_specification]
#[verifier::external_body]
pub struct ExSdkConfig(aws_config::SdkConfig);

/// Where an origin has its client from.
pub enum ClientSource {
    /// A client that was made beforehand.
    Client(aws_sdk_s3::Client),
    /// The configuration that the client is to be made from.
    Config(aws_config::SdkConfig),
}

/// What an origin is made of. It is set once, when the origin is built.
struct S3OriginInner {
    bucket: String,
    bucket_prefix: String,
    client: ClientSource,
    prune_path: usize,
    max_size: Option<i64>,
}

/// One bucket of an object store, served over HTTP. A clone is another handle
/// on the same origin.
pub struct S3Origin {
    inner: Arc<S3OriginInner>,
}

impl Clone for S3Origin {
    fn clone(&self) -> (other: Self)
        ensures
            other@ == self@,
    {
        S3Origin { inner: self.inner.clone() }
    }
}

/// What an `S3Origin` is.
pub struct OriginView {
    pub bucket: Seq<char>,
    pub bucket_prefix: Seq<char>,
    pub client: ClientSource,
    pub prune_path: usize,
    pub max_size: Option<i64>,
}

impl OriginView {
    /// The bucket has a name, and a size limit, where one is set, is a
    /// positive number of bytes.
    pub open spec fn wf(self) -> bool {
        &&& self.bucket.len() > 0
        &&& self.max_size matches Some(max) ==> max > 0
    }
}

impl View for S3Origin {
    type V = OriginView;

    closed spec fn view(&self) -> OriginView {
        self.inner.view()
    }
}

impl S3OriginInner {
    /// What an origin is.
    spec fn view(self) -> OriginView {
        OriginView {
            bucket: self.bucket@,
            bucket_prefix: self.bucket_prefix@,
            client: self.client,
            prune_path: self.prune_path,
            max_size: self.max_size,
        }
    }

    /// The invariant of an origin, which `build` establishes.
    #[verifier::type_invariant]
    spec fn inv(self) -> bool {
        self.view().wf()
    }
}

impl S3Origin {
    /// An origin of these parts.
    pub(crate) fn new(
        bucket: String,
        bucket_prefix: String,
        client: ClientSource,
        prune_path: usize,
        max_size: Option<i64>,
    ) -> (origin: S3Origin)
        requires
            bucket@.len() > 0,
            max_size matches Some(max) ==> max > 0,
        ensures
            origin@ == (OriginView {
                bucket: bucket@,
                bucket_prefix: bucket_prefix@,
                client,
                prune_path,
                max_size,
            }),
    {
        S3Origin {
            inner: Arc::new(S3OriginInner { bucket, bucket_prefix, client, prune_path, max_size }),
        }
    }

    /// The name of the bucket. It is never empty.
    pub fn bucket(&self) -> (bucket: &str)
        ensures
            bucket@ == self@.bucket,
            bucket@.len() > 0,
    {
        proof {
            use_type_invariant(&*self.inner);
        }
        self.inner.bucket.as_str()
    }

    /// The text that every key begins with.
    pub fn bucket_prefix(&self) -> (prefix: &str)
        ensures
            prefix@ == self@.bucket_prefix,
    {
        self.inner.bucket_prefix.as_str()
    }

    /// Where the client comes from.
    pub fn client(&self) -> (client: &ClientSource)
        ensures
            *client == self@.client,
    {
        &self.inner.client
    }

    /// The number of leading path segments that do not go into the key.
    pub fn prune_path(&self) -> (count: usize)
        ensures
            count == self@.prune_path,
    {
        self.inner.prune_path
    }

    /// The largest object that is served, in bytes, where there is a limit.
    /// A limit is positive.
    pub fn max_size(&self) -> (max: Option<i64>)
        ensures
            max == self@.max_size,
            max matches Some(limit) ==> limit > 0,
    {
        proof {
            use_type_invariant(&*self.inner);
        }
        self.inner.max_size
    }
}

} // verus!
