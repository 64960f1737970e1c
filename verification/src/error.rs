//! The failures of a request, and the response that each is answered with.

use crate::response::{plain_response, Response, ResponseView};
use vstd::prelude::*;
use vstd::std_specs::convert::FromSpecImpl;

verus! {

/// How a fetch from the object store failed.
#[derive(Clone, Copy, Debug, PartialEq, Eq, Structural)]
pub enum FetchFailure {
    /// The store answered that there is no object under the key.
    NoSuchKey,
    /// The store answered with any other failure of its own.
    Service,
    /// The failure is not the store's answer: the request could not be
    /// built or sent, it timed out, or what came back could not be read.
    Transport,
}

/// Why a request is not answered with the object.
#[derive(Clone, Copy, Debug, PartialEq, Eq, Structural)]
pub enum S3Error {
    NotFound,
    BadGateway,
    InternalServerError,
    MaxSizeExceeded,
}

impl S3Error {
    /// The error that a failed fetch is reported as.
    pub open spec fn of_failure(failure: FetchFailure) -> S3Error {
        match failure {
            FetchFailure::NoSuchKey => S3Error::NotFound,
            FetchFailure::Service => S3Error::BadGateway,
            FetchFailure::Transport => S3Error::InternalServerError,
        }
    }

    /// The status code that answers this error.
    pub open spec fn status(self) -> u16 {
        match self {
            S3Error::NotFound => 404,
            S3Error::BadGateway => 502,
            S3Error::InternalServerError => 500,
            S3Error::MaxSizeExceeded => 413,
        }
    }

    /// The text that answers this error.
    pub open spec fn message(self) -> Seq<char> {
        match self {
            S3Error::NotFound => "Not found"@,
            S3Error::BadGateway => "Bad gateway"@,
            S3Error::InternalServerError => "Internal server error"@,
            S3Error::MaxSizeExceeded => "Requested file size exceeds the maximum allowed size"@,
        }
    }

    /// The response that answers this error.
    pub open spec fn rendered(self) -> ResponseView {
        plain_response(self.status(), self.message())
    }

    /// The response that answers this error: its status code and its text,
    /// with no header set and no object read.
    pub fn into_response(self) -> (response: Response)
        ensures
            response@ == self.rendered(),
    {
        match self {
            S3Error::NotFound => Response::plain(404, "Not found"),
            S3Error::BadGateway => Response::plain(502, "Bad gateway"),
            S3Error::InternalServerError => Response::plain(500, "Internal server error"),
            S3Error::MaxSizeExceeded => Response::plain(
                413,
                "Requested file size exceeds the maximum allowed size",
            ),
        }
    }
}

impl From<FetchFailure> for S3Error {
    /// A missing key is `NotFound`, any other answer of the store is
    /// `BadGateway`, and a failure that is not the store's answer is
    /// `InternalServerError`.
    fn from(error: FetchFailure) -> (mapped: S3Error)
        ensures
            mapped == S3Error::of_failure(error),
    {
        match error {
            FetchFailure::NoSuchKey => S3Error::NotFound,
            FetchFailure::Service => S3Error::BadGateway,
            FetchFailure::Transport => S3Error::InternalServerError,
        }
    }
}

impl FromSpecImpl<FetchFailure> for S3Error {
    open spec fn obeys_from_spec() -> bool {
        true
    }

    open spec fn from_spec(v: FetchFailure) -> S3Error {
        S3Error::of_failure(v)
    }
}

} // verus!
