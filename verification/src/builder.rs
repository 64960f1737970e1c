//! Building an origin from its settings.
//!
//! The bucket is required and must have a name. The client of the object
//! store is either handed in or made later from a configuration that is
//! handed in: one of the two is required. The prefix, the number of path
//! segments to discard and the size limit are optional.

use crate::origin::{ClientSource, OriginView, S3Origin};
use vstd::prelude::*;

verus! {

/// The settings of an origin that is not built yet.
pub struct S3OriginBuilder {
    bucket: Option<String>,
    bucket_prefix: Option<String>,
    s3_client: Option<aws_sdk_s3::Client>,
    aws_sdk_config: Option<aws_config::SdkConfig>,
    prune_path: usize,
    max_size: Option<i64>,
}

/// What an `S3OriginBuilder` is: each setting as it was last made, or
/// nothing where it was not made.
pub struct BuilderView {
    pub bucket: Option<Seq<char>>,
    pub bucket_prefix: Option<Seq<char>>,
    pub s3_client: Option<aws_sdk_s3::Client>,
    pub aws_sdk_config: Option<aws_config::SdkConfig>,
    pub prune_path: usize,
    pub max_size: Option<i64>,
}

impl View for S3OriginBuilder {
    type V = BuilderView;

    closed spec fn view(&self) -> BuilderView {
        BuilderView {
            bucket: match self.bucket {
                Some(bucket) => Some(bucket@),
                None => None,
            },
            bucket_prefix: match self.bucket_prefix {
                Some(prefix) => Some(prefix@),
                None => None,
            },
            s3_client: self.s3_client,
            aws_sdk_config: self.aws_sdk_config,
            prune_path: self.prune_path,
            max_size: self.max_size,
        }
    }
}

impl BuilderView {
    /// The settings before any was made: no segment is discarded, and
    /// everything else is absent.
    pub open spec fn initial() -> BuilderView {
        BuilderView {
            bucket: None,
            bucket_prefix: None,
            s3_client: None,
            aws_sdk_config: None,
            prune_path: 0,
            max_size: None,
        }
    }

    /// Why no origin can be built from these settings, or nothing where one
    /// can. The reasons are tried in this order.
    pub open spec fn refusal(self) -> Option<Seq<char>> {
        if self.bucket is None {
            Some("bucket is required"@)
        } else if self.bucket->0.len() == 0 {
            Some("bucket must not be empty"@)
        } else if self.s3_client is None && self.aws_sdk_config is None {
            Some("either s3_client or aws_sdk_config must be provided"@)
        } else if self.max_size matches Some(max) && max <= 0 {
            Some("max_size must be positive"@)
        } else {
            None
        }
    }

    /// The origin that these settings describe. An absent prefix is the empty
    /// one, and a client that was handed in is taken rather than the
    /// configuration.
    pub open spec fn origin(self) -> OriginView {
        OriginView {
            bucket: self.bucket->0,
            bucket_prefix: match self.bucket_prefix {
                Some(prefix) => prefix,
                None => Seq::<char>::empty(),
            },
            client: match self.s3_client {
                Some(client) => ClientSource::Client(client),
                None => ClientSource::Config(self.aws_sdk_config->0),
            },
            prune_path: self.prune_path,
            max_size: self.max_size,
        }
    }

    /// What building gives: the origin, or the reason why there is none.
    pub open spec fn built(self) -> Result<OriginView, Seq<char>> {
        match self.refusal() {
            Some(reason) => Err(reason),
            None => Ok(self.origin()),
        }
    }
}

/// An origin or the reason why there is none, as the contracts speak of it.
pub open spec fn build_view(result: Result<S3Origin, &'static str>) -> Result<
    OriginView,
    Seq<char>,
> {
    match result {
        Ok(origin) => Ok(origin@),
        Err(reason) => Err(reason@),
    }
}

impl S3OriginBuilder {
    /// A builder with no setting made.
    pub fn new() -> (builder: Self)
        ensures
            builder@ == BuilderView::initial(),
    {
        Self {
            bucket: None,
            bucket_prefix: None,
            s3_client: None,
            aws_sdk_config: None,
            prune_path: 0,
            max_size: None,
        }
    }

    /// Set the bucket name.
    ///
    /// This is required, and the name must not be empty.
    pub fn bucket(self, bucket: &str) -> (builder: Self)
        ensures
            builder@ == (BuilderView { bucket: Some(bucket@), ..self@ }),
    {
        let mut changed = self;
        changed.bucket = Some(bucket.to_owned());
        changed
    }

    /// Set the bucket prefix.
    ///
    /// This is optional, and defaults to an empty string.
    pub fn prefix(self, prefix: &str) -> (builder: Self)
        ensures
            builder@ == (BuilderView { bucket_prefix: Some(prefix@), ..self@ }),
    {
        let mut changed = self;
        changed.bucket_prefix = Some(prefix.to_owned());
        changed
    }

    /// Set the S3 client.
    ///
    /// This is optional. Without it the configuration of the AWS SDK must be
    /// set, and the client is made from that.
    pub fn client(self, client: aws_sdk_s3::Client) -> (builder: Self)
        ensures
            builder@ == (BuilderView { s3_client: Some(client), ..self@ }),
    {
        let mut changed = self;
        changed.s3_client = Some(client);
        changed
    }

    /// Number of path components to remove from the request path.
    ///
    /// For example, if the request path is
    /// `/stage/my-app/static/deployment/index.html` and the number is 3, the
    /// key is the prefix followed by `deployment/index.html`.
    pub fn prune_path(self, prune_path: usize) -> (builder: Self)
        ensures
            builder@ == (BuilderView { prune_path, ..self@ }),
    {
        let mut changed = self;
        changed.prune_path = prune_path;
        changed
    }

    /// Set the AWS SDK config.
    ///
    /// This is optional. If no client is set, it must be set.
    pub fn config(self, config: aws_config::SdkConfig) -> (builder: Self)
        ensures
            builder@ == (BuilderView { aws_sdk_config: Some(config), ..self@ }),
    {
        let mut changed = self;
        changed.aws_sdk_config = Some(config);
        changed
    }

    /// Set the maximum size of the file to serve, in bytes.
    ///
    /// This is optional, and defaults to no maximum size. A larger object is
    /// answered with 413 (Payload Too Large). The size must be positive.
    pub fn max_size(self, max_size: i64) -> (builder: Self)
        ensures
            builder@ == (BuilderView { max_size: Some(max_size), ..self@ }),
    {
        let mut changed = self;
        changed.max_size = Some(max_size);
        changed
    }

    /// Build the S3 origin.
    ///
    /// This gives the reason instead where the bucket is not set or has no
    /// name, where neither a client nor a configuration is set, or where the
    /// size limit is not positive.
    pub fn build(self) -> (result: Result<S3Origin, &'static str>)
        ensures
            build_view(result) == self@.built(),
            result matches Ok(origin) ==> origin@.wf(),
    {
        let bucket = match self.bucket {
            Some(bucket) => bucket,
            None => {
                return Err("bucket is required");
            },
        };
        if bucket.as_str().is_empty() {
            return Err("bucket must not be empty");
        }
        let client = match self.s3_client {
            Some(client) => ClientSource::Client(client),
            None => match self.aws_sdk_config {
                Some(config) => ClientSource::Config(config),
                None => {
                    return Err("either s3_client or aws_sdk_config must be provided");
                },
            },
        };
        if let Some(max) = self.max_size {
            if max <= 0 {
                return Err("max_size must be positive");
            }
        }
        let bucket_prefix = match self.bucket_prefix {
            Some(prefix) => prefix,
            None => String::new(),
        };
        Ok(S3Origin::new(bucket, bucket_prefix, client, self.prune_path, self.max_size))
    }
}

impl Default for S3OriginBuilder {
    fn default() -> (builder: Self)
        ensures
            builder@ == BuilderView::initial(),
    {
        Self::new()
    }
}

/// An origin is built exactly from the settings that name a bucket, hold a
/// client or a configuration, and set no size limit or a positive one. The
/// origin that is built then meets its invariant.
pub proof fn lemma_build_succeeds(builder: BuilderView)
    ensures
        builder.built() is Ok <==> {
            &&& builder.bucket matches Some(bucket) && bucket.len() > 0
            &&& builder.s3_client is Some || builder.aws_sdk_config is Some
            &&& builder.max_size matches Some(max) ==> max > 0
        },
        builder.built() matches Ok(origin) ==> origin.wf(),
{
}

} // verus!
