//! What an origin decides for a request, before and after the fetch.
//!
//! A request is answered in two steps with the fetch between them. `begin`
//! looks at the request and either answers it at once or says which object
//! to fetch. `finish` takes the outcome of that fetch and gives the response.
//! The fetch itself is the caller's: it is made once, and only when `begin`
//! asked for it.

use crate::error::{FetchFailure, S3Error};
use crate::key::{request_to_key, resolve};
use crate::origin::{OriginView, S3Origin};
use crate::response::{
    assemble, fetch_view, lemma_every_outcome_has_a_response, plain_response, respond, text_view,
    wrap_create_response, ObjectMeta, ObjectMetaView, Response, ResponseView,
};
use vstd::prelude::*;
use vstd::utf8::{encode_utf8, encode_utf8_decode_utf8};

verus! {

/// The `Range` header of a request.
#[derive(Clone, Debug, PartialEq, Eq)]
pub enum RangeHeader {
    /// The request has no such header.
    Absent,
    /// The value of the header.
    Text(String),
    /// The request has the header, and its value is no text.
    Opaque,
}

/// What a `RangeHeader` is.
pub enum RangeView {
    Absent,
    Text(Seq<char>),
    Opaque,
}

impl View for RangeHeader {
    type V = RangeView;

    open spec fn view(&self) -> RangeView {
        match *self {
            RangeHeader::Absent => RangeView::Absent,
            RangeHeader::Text(text) => RangeView::Text(text@),
            RangeHeader::Opaque => RangeView::Opaque,
        }
    }
}

/// What the service reads of a request: the method by its name, the path of
/// the URL, and the `Range` header.
#[derive(Clone, Debug, PartialEq, Eq)]
pub struct Request {
    pub method: String,
    pub path: String,
    pub range: RangeHeader,
}

/// What a `Request` is.
pub struct RequestView {
    pub method: Seq<char>,
    pub path: Seq<char>,
    pub range: RangeView,
}

impl View for Request {
    type V = RequestView;

    open spec fn view(&self) -> RequestView {
        RequestView { method: self.method@, path: self.path@, range: self.range@ }
    }
}

/// One fetch from the object store: the bucket, the key of the object, and
/// the byte range where only a part is asked for.
#[derive(Clone, Debug, PartialEq, Eq)]
pub struct GetObject {
    pub bucket: String,
    pub key: String,
    pub range: Option<String>,
}

/// What a `GetObject` is.
pub struct GetObjectView {
    pub bucket: Seq<char>,
    pub key: Seq<char>,
    pub range: Option<Seq<char>>,
}

impl View for GetObject {
    type V = GetObjectView;

    open spec fn view(&self) -> GetObjectView {
        GetObjectView { bucket: self.bucket@, key: self.key@, range: text_view(self.range) }
    }
}

/// What is to be done for a request.
#[derive(Clone, Debug, PartialEq, Eq)]
pub enum Step {
    /// Answer with this response. The object store is not called.
    Respond(Response),
    /// Make this fetch, once, and hand its outcome to `finish`.
    Fetch(GetObject),
}

/// What a `Step` is.
pub enum StepView {
    Respond(ResponseView),
    Fetch(GetObjectView),
}

impl View for Step {
    type V = StepView;

    open spec fn view(&self) -> StepView {
        match *self {
            Step::Respond(response) => StepView::Respond(response@),
            Step::Fetch(fetch) => StepView::Fetch(fetch@),
        }
    }
}

/// The name of the one method that is served.
pub open spec fn get_method() -> Seq<char> {
    "GET"@
}

/// The response to a request of any other method.
pub open spec fn method_not_allowed() -> ResponseView {
    plain_response(405, "Method not allowed"@)
}

/// The fetch with the byte range of the request, where the request has one.
/// The range is handed on as it came: it is not read here. A range that is
/// no text cannot be handed on, and is an error.
pub open spec fn with_range(request: RequestView, fetch: GetObjectView) -> Result<
    GetObjectView,
    S3Error,
> {
    match request.range {
        RangeView::Absent => Ok(fetch),
        RangeView::Text(range) => Ok(GetObjectView { range: Some(range), ..fetch }),
        RangeView::Opaque => Err(S3Error::InternalServerError),
    }
}

/// The fetch that a `GET` asks for: of the object whose key the path
/// resolves to, in the origin's bucket, with the byte range of the request.
pub open spec fn fetch_for(origin: OriginView, request: RequestView) -> Result<
    GetObjectView,
    S3Error,
> {
    with_range(
        request,
        GetObjectView {
            bucket: origin.bucket,
            key: resolve(origin.bucket_prefix, request.path, origin.prune_path as nat),
            range: None,
        },
    )
}

/// What an origin does for a request. Any method but `GET` is answered with
/// 405 before anything else of the request is looked at. A `GET` asks for
/// its fetch, or is answered with the error that stands in the way of it.
pub open spec fn first_step(origin: OriginView, request: RequestView) -> StepView {
    if request.method != get_method() {
        StepView::Respond(method_not_allowed())
    } else {
        match fetch_for(origin, request) {
            Ok(fetch) => StepView::Fetch(fetch),
            Err(error) => StepView::Respond(error.rendered()),
        }
    }
}

/// Whether two texts are the same, character by character.
fn same_text(left: &str, right: &str) -> (same: bool)
    ensures
        same == (left@ == right@),
{
    let a = left.as_bytes();
    let b = right.as_bytes();
    if a.len() != b.len() {
        return false;
    }
    let mut i: usize = 0;
    while i < a.len()
        invariant
            a@ == encode_utf8(left@),
            b@ == encode_utf8(right@),
            a@.len() == b@.len(),
            i <= a@.len(),
            forall|j: int| 0 <= j < i ==> a@[j] == b@[j],
        decreases a@.len() - i,
    {
        if a[i] != b[i] {
            return false;
        }
        i = i + 1;
    }
    proof {
        assert(a@ =~= b@);
        encode_utf8_decode_utf8(left@);
        encode_utf8_decode_utf8(right@);
    }
    true
}

/// A fetch or the error in its place, as the contracts speak of it.
pub open spec fn fetch_result_view(result: Result<GetObject, S3Error>) -> Result<
    GetObjectView,
    S3Error,
> {
    match result {
        Ok(fetch) => Ok(fetch@),
        Err(error) => Err(error),
    }
}

/// Puts the byte range of the request, where it has one, on the fetch. A
/// range that is no text gives `InternalServerError`.
pub fn make_request_builder(request: &Request, builder: GetObject) -> (ranged: Result<
    GetObject,
    S3Error,
>)
    ensures
        fetch_result_view(ranged) == with_range(request@, builder@),
{
    match &request.range {
        RangeHeader::Absent => Ok(builder),
        RangeHeader::Text(range) => Ok(
            GetObject { bucket: builder.bucket, key: builder.key, range: Some(range.clone()) },
        ),
        RangeHeader::Opaque => Err(S3Error::InternalServerError),
    }
}

impl S3Origin {
    /// Decides what is done for a request: the response at once, for any
    /// method but `GET` and for a range that cannot be handed on, or else the
    /// fetch that is to be made.
    pub fn begin(&self, request: &Request) -> (step: Step)
        ensures
            step@ == first_step(self@, request@),
    {
        if !same_text(request.method.as_str(), "GET") {
            return Step::Respond(Response::plain(405, "Method not allowed"));
        }
        let key = request_to_key(self.bucket_prefix(), request.path.as_str(), self.prune_path());
        let builder = GetObject { bucket: self.bucket().to_owned(), key, range: None };
        match make_request_builder(request, builder) {
            Ok(fetch) => Step::Fetch(fetch),
            Err(error) => Step::Respond(error.into_response()),
        }
    }

    /// Gives the response to the outcome of the fetch: the object, streamed,
    /// or the answer to what went wrong. Every outcome has a response.
    pub fn finish(&self, outcome: Result<ObjectMeta, FetchFailure>) -> (response: Response)
        ensures
            response@ == respond(fetch_view(outcome), self@.max_size),
    {
        match wrap_create_response(outcome, self.max_size()) {
            Ok(response) => response,
            Err(error) => error.into_response(),
        }
    }
}

/// A request of any method but `GET` is answered with 405 and a fixed text,
/// whatever its path and whatever the origin. Nothing is fetched for it.
pub proof fn lemma_other_methods_are_refused(origin: OriginView, request: RequestView)
    requires
        request.method != get_method(),
    ensures
        first_step(origin, request) == StepView::Respond(method_not_allowed()),
        method_not_allowed().status == 405,
        !(first_step(origin, request) is Fetch),
{
}

/// A `GET` whose range, if it has one, is a text is answered by one fetch:
/// from the origin's bucket, of the key that the path resolves to, with the
/// range as it came.
pub proof fn lemma_get_fetches(origin: OriginView, request: RequestView)
    requires
        request.method == get_method(),
        !(request.range is Opaque),
    ensures
        first_step(origin, request) == StepView::Fetch(
            GetObjectView {
                bucket: origin.bucket,
                key: resolve(origin.bucket_prefix, request.path, origin.prune_path as nat),
                range: match request.range {
                    RangeView::Text(range) => Some(range),
                    _ => None,
                },
            },
        ),
{
}

/// The response to a request, where `outcome` is what the fetch gives if one
/// is made.
pub open spec fn answer(
    origin: OriginView,
    request: RequestView,
    outcome: Result<ObjectMetaView, FetchFailure>,
) -> ResponseView {
    match first_step(origin, request) {
        StepView::Respond(response) => response,
        StepView::Fetch(_) => respond(outcome, origin.max_size),
    }
}

/// Every request has a response, whatever it asks and whatever the fetch
/// gives. Its status is one of six codes. It streams an object exactly if
/// the status is 200, and that is so exactly for a `GET` whose fetch was
/// made and gave an object that can be served.
pub proof fn lemma_every_request_has_a_response(
    origin: OriginView,
    request: RequestView,
    outcome: Result<ObjectMetaView, FetchFailure>,
)
    ensures
        ({
            let response = answer(origin, request, outcome);
            let served = request.method == get_method() && !(request.range is Opaque) && assemble(
                outcome,
                origin.max_size,
            ) is Ok;
            &&& response.status == 200 || response.status == 404 || response.status == 405
                || response.status == 413 || response.status == 500 || response.status == 502
            &&& response.body is Stream <==> response.status == 200
            &&& response.status == 200 <==> served
            &&& response.status == 405 <==> request.method != get_method()
        }),
{
    lemma_every_outcome_has_a_response(outcome, origin.max_size);
}

} // verus!
