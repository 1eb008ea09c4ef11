//! One compression job: what it holds, what it sends, and what it makes of
//! each response.
//!
//! A job at rest is a `Source`. A job with a request under way is a
//! `Pending`: it takes what the HTTP layer reports and says what comes next.
//! The caller sends the requests and hands the responses back.

use vstd::prelude::*;
use vstd::slice::slice_to_vec;
use crate::address::shrink_address;
use crate::address::shrink_url;
use crate::convert::Convert;
use crate::convert::ConvertView;
use crate::error::classify;
use crate::error::local_error;
use crate::error::verdict;
use crate::error::Exchange;
use crate::error::TinifyError;
use crate::error::TinifyErrorView;
use crate::error::Upstream;
use crate::error::UpstreamView;
use crate::error::Verdict;
use crate::http::bytes_of;
use crate::http::copy_text;
use crate::http::event_of;
use crate::http::get_request;
use crate::http::location_of;
use crate::http::post_request;
use crate::http::text_of;
use crate::http::Payload;
use crate::http::PayloadView;
use crate::http::Request;
use crate::http::RequestView;
use crate::http::Response;
use crate::http::ResponseView;
use crate::operations::operations_json;
use crate::operations::Operations;
use crate::operations::OperationsView;
use crate::resize::Resize;
use crate::transform::Transform;
use crate::transform::TransformView;

verus! {

/// The code of a local refusal of malformed parameters.
pub const INVALID: &'static str = "Invalid";

/// The code of a local refusal for want of something.
pub const EMPTY: &'static str = "Empty";

/// The message of the refusal of a resize whose dimensions do not suit its
/// method.
pub const INVALID_RESIZE: &'static str =
    "Scale takes a width or a height, not both; fit, cover and thumb take both.";

/// The message of the refusal of a convert without a candidate type.
pub const INVALID_CONVERT: &'static str = "Convert takes at least one image type.";

/// The message of the refusal to send a transform without a convert.
pub const LONE_TRANSFORM: &'static str = "Transform takes effect only together with a convert.";

/// The message of the refusal to send operations for want of an address.
pub const EMPTY_OUTPUT: &'static str = "Output of the compressed image is empty.";

/// The message of the refusal to hand out a buffer that is not there.
pub const EMPTY_BUFFER: &'static str = "Buffer of the compressed image is empty.";

/// What becomes of a transform that no convert accompanies. The service
/// ignores such a transform.
#[derive(Clone, Copy, Debug, PartialEq, Eq, Structural)]
pub enum LoneTransform {
    /// The job refuses to send it.
    Reject,
    /// The job sends it all the same.
    Forward,
}

/// How far a job has come. A job that has handed out its result is used
/// up.
#[derive(Clone, Copy, Debug, PartialEq, Eq, Structural)]
pub enum Stage {
    /// Nothing has been uploaded.
    Uninitialized,
    /// The buffer holds the compressed image.
    Uploaded,
    /// Operations are recorded and not yet sent.
    OperationsPending,
    /// The buffer holds the result of the operations that were sent.
    Flushed,
}

/// A compression job at rest.
#[derive(Debug, PartialEq, Eq)]
pub struct Source {
    key: Option<String>,
    buffer: Option<Vec<u8>>,
    output: Option<String>,
    operations: Operations,
    lone_transform: LoneTransform,
    flushed: bool,
}

/// A job at rest as a mathematical value.
pub struct SourceView {
    /// The credential of the authenticated requests.
    pub key: Option<Seq<char>>,
    /// The image as far as it is known: absent until an upload succeeded.
    pub buffer: Option<Seq<u8>>,
    /// Where the service keeps the latest result, if it keeps it apart.
    pub output: Option<Seq<char>>,
    pub operations: OperationsView,
    pub lone_transform: LoneTransform,
    /// Whether the buffer is the result of operations.
    pub flushed: bool,
}

impl View for Source {
    type V = SourceView;

    closed spec fn view(&self) -> SourceView {
        SourceView {
            key: text_of(self.key),
            buffer: bytes_of(self.buffer),
            output: text_of(self.output),
            operations: self.operations@,
            lone_transform: self.lone_transform,
            flushed: self.flushed,
        }
    }
}

impl SourceView {
    /// A job that has done nothing yet.
    pub open spec fn fresh(key: Option<Seq<char>>, lone_transform: LoneTransform) -> SourceView {
        SourceView {
            key,
            buffer: None,
            output: None,
            operations: OperationsView::empty(),
            lone_transform,
            flushed: false,
        }
    }

    /// How far the job has come: nowhere without a buffer; else to pending
    /// operations where there are any; else to the result of operations or
    /// of the upload.
    pub open spec fn stage(self) -> Stage {
        if self.buffer is None {
            Stage::Uninitialized
        } else if !self.operations.is_empty() {
            Stage::OperationsPending
        } else if self.flushed {
            Stage::Flushed
        } else {
            Stage::Uploaded
        }
    }

    /// The job with other pending operations, and nothing else changed.
    pub open spec fn with_operations(self, operations: OperationsView) -> SourceView {
        SourceView { operations, ..self }
    }

    /// The job after a result has arrived. The body is the new buffer, and
    /// `output` says where the service keeps it, if apart. A result of
    /// operations leaves none of them pending.
    pub open spec fn delivered(self, flush: bool, body: Seq<u8>, output: Option<Seq<char>>) -> SourceView {
        SourceView {
            buffer: Some(body),
            output,
            operations: if flush {
                OperationsView::empty()
            } else {
                self.operations
            },
            flushed: flush,
            ..self
        }
    }
}

/// The request that a job waits on.
#[derive(Debug)]
pub enum Awaiting {
    /// The download of the caller's image, to be uploaded to `target`.
    Fetch { target: String },
    /// The upload.
    Shrink,
    /// The request that carries the operations.
    Operate,
    /// The download of a result from `location`; `flush` says whether it is
    /// the result of operations.
    Download { location: String, flush: bool },
}

/// What a job waits on, as a mathematical value.
pub enum AwaitingView {
    Fetch { target: Seq<char> },
    Shrink,
    Operate,
    Download { location: Seq<char>, flush: bool },
}

impl View for Awaiting {
    type V = AwaitingView;

    open spec fn view(&self) -> AwaitingView {
        match *self {
            Awaiting::Fetch { target } => AwaitingView::Fetch { target: target@ },
            Awaiting::Shrink => AwaitingView::Shrink,
            Awaiting::Operate => AwaitingView::Operate,
            Awaiting::Download { location, flush } => AwaitingView::Download {
                location: location@,
                flush,
            },
        }
    }
}

impl AwaitingView {
    /// The kind of request that is under way.
    pub open spec fn exchange(self) -> Exchange {
        match self {
            AwaitingView::Fetch { .. } => Exchange::Fetch,
            AwaitingView::Shrink => Exchange::Shrink,
            AwaitingView::Operate => Exchange::Operate,
            AwaitingView::Download { .. } => Exchange::Download,
        }
    }

    /// The most requests that the exchange can still take, the one under
    /// way among them: a download ends it; an upload or a request with
    /// operations may be followed by a download; the download of the
    /// caller's image is followed by its upload.
    pub open spec fn requests_left(self) -> nat {
        match self {
            AwaitingView::Fetch { .. } => 3,
            AwaitingView::Shrink => 2,
            AwaitingView::Operate => 2,
            AwaitingView::Download { .. } => 1,
        }
    }
}

impl Awaiting {
    /// The kind of request that is under way.
    pub fn exchange(&self) -> (r: Exchange)
        ensures
            r == self@.exchange(),
    {
        match self {
            Awaiting::Fetch { .. } => Exchange::Fetch,
            Awaiting::Shrink => Exchange::Shrink,
            Awaiting::Operate => Exchange::Operate,
            Awaiting::Download { .. } => Exchange::Download,
        }
    }
}

/// A compression job with one request under way.
#[derive(Debug)]
pub struct Pending {
    source: Source,
    awaiting: Awaiting,
}

/// A job with a request under way, as a mathematical value.
pub struct PendingView {
    /// The job as it was when the exchange began.
    pub source: SourceView,
    pub awaiting: AwaitingView,
}

impl View for Pending {
    type V = PendingView;

    closed spec fn view(&self) -> PendingView {
        PendingView { source: self.source@, awaiting: self.awaiting@ }
    }
}

/// Whose fault a refused request is.
#[derive(Clone, Copy, Debug, PartialEq, Eq, Structural)]
pub enum Fault {
    Client,
    Server,
}

/// A response by which the service refused a request. The body is the
/// service's account of the failure, still to be read.
#[derive(Clone, Debug, PartialEq, Eq)]
pub struct Rejection {
    pub fault: Fault,
    pub body: Vec<u8>,
}

/// A refusal as a mathematical value.
pub struct RejectionView {
    pub fault: Fault,
    pub body: Seq<u8>,
}

impl View for Rejection {
    type V = RejectionView;

    open spec fn view(&self) -> RejectionView {
        RejectionView { fault: self.fault, body: self.body@ }
    }
}

/// The failure that a refusal amounts to once its body has been read: the
/// fault with the service's account, or the error of reading it.
pub open spec fn refusal(fault: Fault, account: Result<UpstreamView, serde_json::Error>) -> TinifyErrorView {
    match account {
        Ok(upstream) => match fault {
            Fault::Client => TinifyErrorView::ClientError { upstream },
            Fault::Server => TinifyErrorView::ServerError { upstream },
        },
        Err(e) => TinifyErrorView::JsonParseError(e),
    }
}

/// What reading the body of a refusal gave, as a mathematical value.
pub open spec fn account_of(account: Result<Upstream, serde_json::Error>) -> Result<
    UpstreamView,
    serde_json::Error,
> {
    match account {
        Ok(upstream) => Ok(upstream@),
        Err(e) => Err(e),
    }
}

impl Rejection {
    /// The failure that this refusal amounts to, given what reading its
    /// body as an upstream account gave.
    pub fn into_error(self, account: Result<Upstream, serde_json::Error>) -> (r: TinifyError)
        ensures
            r@ == refusal(self.fault, account_of(account)),
    {
        match account {
            Ok(upstream) => match self.fault {
                Fault::Client => TinifyError::ClientError { upstream },
                Fault::Server => TinifyError::ServerError { upstream },
            },
            Err(e) => TinifyError::JsonParseError(e),
        }
    }
}

/// What a job makes of a report of the HTTP layer.
#[derive(Debug)]
pub enum Step {
    /// Another request is to be sent, and its response handed to the job.
    Send(Pending, Request),
    /// The exchange is over: the job holds the result.
    Ready(Source),
    /// The service refused. The job is as it was when the exchange began.
    Rejected(Source, Rejection),
    /// The exchange failed. The job is as it was when the exchange began.
    Failed(Source, TinifyError),
}

/// A step as a mathematical value.
pub enum StepView {
    Send(PendingView, RequestView),
    Ready(SourceView),
    Rejected(SourceView, RejectionView),
    Failed(SourceView, TinifyErrorView),
}

impl View for Step {
    type V = StepView;

    open spec fn view(&self) -> StepView {
        match *self {
            Step::Send(pending, request) => StepView::Send(pending@, request@),
            Step::Ready(source) => StepView::Ready(source@),
            Step::Rejected(source, rejection) => StepView::Rejected(source@, rejection@),
            Step::Failed(source, error) => StepView::Failed(source@, error@),
        }
    }
}

/// What a job makes of a successful response to an upload or to a request
/// that carried operations. Without a `Location` header the body is the
/// result. With one, the result is to be downloaded from there. A header
/// that cannot be read as text fails the exchange.
pub open spec fn landed(
    source: SourceView,
    flush: bool,
    location: Option<Result<Seq<char>, reqwest::header::ToStrError>>,
    body: Seq<u8>,
) -> StepView {
    match location {
        None => StepView::Ready(source.delivered(flush, body, None)),
        Some(Ok(location)) => StepView::Send(
            PendingView { source, awaiting: AwaitingView::Download { location, flush } },
            get_request(location),
        ),
        Some(Err(e)) => StepView::Failed(source, TinifyErrorView::ReqwestConvertError(e)),
    }
}

/// What a job with a request under way makes of a report of the HTTP layer.
///
/// A failure of the HTTP layer fails the exchange. A response is first read
/// by its status: a refusal ends the exchange with the body as the
/// service's account. A successful response is read by what the job waited
/// on: the caller's image is uploaded; an upload or a request with
/// operations has `landed`; a downloaded result is the new buffer, and the
/// address it came from the new output.
pub open spec fn received(pending: PendingView, event: Result<ResponseView, reqwest::Error>) -> StepView {
    match event {
        Err(e) => StepView::Failed(pending.source, TinifyErrorView::ReqwestError(e)),
        Ok(response) => match verdict(pending.awaiting.exchange(), response.status) {
            Verdict::ClientError => StepView::Rejected(
                pending.source,
                RejectionView { fault: Fault::Client, body: response.body },
            ),
            Verdict::ServerError => StepView::Rejected(
                pending.source,
                RejectionView { fault: Fault::Server, body: response.body },
            ),
            Verdict::Success => match pending.awaiting {
                AwaitingView::Fetch { target } => StepView::Send(
                    PendingView { source: pending.source, awaiting: AwaitingView::Shrink },
                    post_request(target, PayloadView::Bytes(response.body), pending.source.key),
                ),
                AwaitingView::Shrink => landed(
                    pending.source,
                    false,
                    response.location,
                    response.body,
                ),
                AwaitingView::Operate => landed(
                    pending.source,
                    true,
                    response.location,
                    response.body,
                ),
                AwaitingView::Download { location, flush } => StepView::Ready(
                    pending.source.delivered(flush, response.body, Some(location)),
                ),
            },
        },
    }
}

/// What a job hands out when it is asked for its result.
#[derive(Debug)]
pub enum Output {
    /// The result.
    Bytes(Vec<u8>),
    /// There is nothing to hand out, and nothing wrong with that.
    Nothing,
    /// Operations are pending: this request is to be sent first, and the
    /// job asked again once it is ready.
    Send(Pending, Request),
    /// The job cannot hand out a result as it is. Nothing was sent.
    Refused(Source, TinifyError),
}

/// An output as a mathematical value.
pub enum OutputView {
    Bytes(Seq<u8>),
    Nothing,
    Send(PendingView, RequestView),
    Refused(SourceView, TinifyErrorView),
}

impl View for Output {
    type V = OutputView;

    open spec fn view(&self) -> OutputView {
        match *self {
            Output::Bytes(bytes) => OutputView::Bytes(bytes@),
            Output::Nothing => OutputView::Nothing,
            Output::Send(pending, request) => OutputView::Send(pending@, request@),
            Output::Refused(source, error) => OutputView::Refused(source@, error@),
        }
    }
}

/// How a job sends its pending operations: in one request, as JSON, to the
/// address where the service keeps the image. A lone transform is refused
/// where the job is set to reject it; a job without such an address is
/// refused.
pub open spec fn flushing(source: SourceView) -> OutputView {
    if source.operations.lone_transform() && source.lone_transform == LoneTransform::Reject {
        OutputView::Refused(source, local_error(INVALID@, LONE_TRANSFORM@))
    } else {
        match source.output {
            None => OutputView::Refused(source, local_error(EMPTY@, EMPTY_OUTPUT@)),
            Some(url) => OutputView::Send(
                PendingView { source, awaiting: AwaitingView::Operate },
                post_request(url, PayloadView::Json(operations_json(source.operations)), source.key),
            ),
        }
    }
}

/// What a job hands out as its buffer: its pending operations first; else
/// the buffer; a job without a buffer is refused.
pub open spec fn buffered(source: SourceView) -> OutputView {
    if !source.operations.is_empty() {
        flushing(source)
    } else {
        match source.buffer {
            Some(bytes) => OutputView::Bytes(bytes),
            None => OutputView::Refused(source, local_error(EMPTY@, EMPTY_BUFFER@)),
        }
    }
}

/// What a job hands out to be written to a file: its pending operations
/// first; else the buffer; for a job without a buffer there is nothing to
/// write.
pub open spec fn filed(source: SourceView) -> OutputView {
    if !source.operations.is_empty() {
        flushing(source)
    } else {
        match source.buffer {
            Some(bytes) => OutputView::Bytes(bytes),
            None => OutputView::Nothing,
        }
    }
}

/// What recording an operation gave, as a mathematical value.
pub open spec fn outcome_of(r: Result<Source, TinifyError>) -> Result<SourceView, TinifyErrorView> {
    match r {
        Ok(source) => Ok(source@),
        Err(e) => Err(e@),
    }
}

/// The job after a resize has been recorded: the resize stands in place of
/// any that was pending, and nothing else has changed. Dimensions that do
/// not suit the method are refused as the caller's fault.
pub open spec fn resized(source: SourceView, resize: Resize) -> Result<SourceView, TinifyErrorView> {
    if resize.valid() {
        Ok(source.with_operations(OperationsView { resize: Some(resize), ..source.operations }))
    } else {
        Err(local_error(INVALID@, INVALID_RESIZE@))
    }
}

/// The job after a convert has been recorded: the convert stands in place
/// of any that was pending, and nothing else has changed. A convert without
/// a candidate type is refused as the caller's fault.
pub open spec fn converted(source: SourceView, convert: ConvertView) -> Result<
    SourceView,
    TinifyErrorView,
> {
    if convert.valid() {
        Ok(source.with_operations(OperationsView { convert: Some(convert), ..source.operations }))
    } else {
        Err(local_error(INVALID@, INVALID_CONVERT@))
    }
}

/// The job after a transform has been recorded: the transform stands in
/// place of any that was pending, and nothing else has changed.
pub open spec fn transformed(source: SourceView, transform: TransformView) -> Result<
    SourceView,
    TinifyErrorView,
> {
    Ok(source.with_operations(OperationsView { transform: Some(transform), ..source.operations }))
}

/// The upload of an image to `target`.
pub open spec fn shrinking(source: SourceView, target: Seq<char>, image: Seq<u8>) -> (
    PendingView,
    RequestView,
) {
    (
        PendingView { source, awaiting: AwaitingView::Shrink },
        post_request(target, PayloadView::Bytes(image), source.key),
    )
}

/// The download of the caller's image from `url`, to be uploaded to
/// `target`.
pub open spec fn fetching(source: SourceView, target: Seq<char>, url: Seq<char>) -> (
    PendingView,
    RequestView,
) {
    (PendingView { source, awaiting: AwaitingView::Fetch { target } }, get_request(url))
}

impl Source {
    /// A job that has done nothing yet, set to reject a lone transform.
    pub fn new(key: Option<&str>) -> (r: Source)
        ensures
            r@ == SourceView::fresh(
                match key {
                    Some(k) => Some(k@),
                    None => None,
                },
                LoneTransform::Reject,
            ),
    {
        Source::configured(key, LoneTransform::Reject)
    }

    /// A job that has done nothing yet.
    pub fn configured(key: Option<&str>, lone_transform: LoneTransform) -> (r: Source)
        ensures
            r@ == SourceView::fresh(
                match key {
                    Some(k) => Some(k@),
                    None => None,
                },
                lone_transform,
            ),
    {
        let key = match key {
            Some(k) => Some(String::from_str(k)),
            None => None,
        };
        Source {
            key,
            buffer: None,
            output: None,
            operations: Operations::new(),
            lone_transform,
            flushed: false,
        }
    }

    /// The credential of the authenticated requests.
    pub fn key(&self) -> (r: &Option<String>)
        ensures
            text_of(*r) == self@.key,
    {
        &self.key
    }

    /// The image as far as it is known.
    pub fn buffer(&self) -> (r: &Option<Vec<u8>>)
        ensures
            bytes_of(*r) == self@.buffer,
    {
        &self.buffer
    }

    /// Where the service keeps the latest result, if it keeps it apart.
    pub fn output(&self) -> (r: &Option<String>)
        ensures
            text_of(*r) == self@.output,
    {
        &self.output
    }

    /// The operations that are recorded and not yet sent.
    pub fn operations(&self) -> (r: &Operations)
        ensures
            r@ == self@.operations,
    {
        &self.operations
    }

    /// What becomes of a transform that no convert accompanies.
    pub fn lone_transform(&self) -> (r: LoneTransform)
        ensures
            r == self@.lone_transform,
    {
        self.lone_transform
    }

    /// How far the job has come.
    pub fn stage(&self) -> (r: Stage)
        ensures
            r == self@.stage(),
    {
        if self.buffer.is_none() {
            Stage::Uninitialized
        } else if !self.operations.is_empty() {
            Stage::OperationsPending
        } else if self.flushed {
            Stage::Flushed
        } else {
            Stage::Uploaded
        }
    }

    /// Records a resize in place of any that was pending. Nothing is sent.
    /// Dimensions that do not suit the method are refused.
    pub fn resize(self, resize: Resize) -> (r: Result<Source, TinifyError>)
        ensures
            outcome_of(r) == resized(self@, resize),
    {
        if resize.is_valid() {
            let mut source = self;
            source.operations.resize = Some(resize);
            Ok(source)
        } else {
            Err(TinifyError::local(INVALID, INVALID_RESIZE))
        }
    }

    /// Records a convert in place of any that was pending. Nothing is sent.
    /// A convert without a candidate type is refused.
    pub fn convert(self, convert: Convert) -> (r: Result<Source, TinifyError>)
        ensures
            outcome_of(r) == converted(self@, convert@),
    {
        if convert.is_valid() {
            let mut source = self;
            source.operations.convert = Some(convert);
            Ok(source)
        } else {
            Err(TinifyError::local(INVALID, INVALID_CONVERT))
        }
    }

    /// Records a transform in place of any that was pending. Nothing is
    /// sent.
    pub fn transform(self, transform: Transform) -> (r: Result<Source, TinifyError>)
        ensures
            outcome_of(r) == transformed(self@, transform@),
    {
        let mut source = self;
        source.operations.transform = Some(transform);
        Ok(source)
    }

    /// Begins the upload of an image to `target`.
    pub fn shrink(self, target: String, image: &[u8]) -> (r: (Pending, Request))
        ensures
            (r.0@, r.1@) == shrinking(self@, target@, image@),
    {
        let key = copy_text(&self.key);
        let request = Request::post(target, Payload::Bytes(slice_to_vec(image)), key);
        (Pending { source: self, awaiting: Awaiting::Shrink }, request)
    }

    /// Begins the download of the caller's image from `url`, to be uploaded
    /// to `target`.
    pub fn fetch(self, target: String, url: &str) -> (r: (Pending, Request))
        ensures
            (r.0@, r.1@) == fetching(self@, target@, url@),
    {
        let request = Request::get(String::from_str(url));
        (Pending { source: self, awaiting: Awaiting::Fetch { target } }, request)
    }

    /// Begins the upload of an image to the service. It fails only where
    /// the address of the service cannot be put together.
    pub fn from_buffer(self, buffer: &[u8]) -> (r: Result<(Pending, Request), TinifyError>)
        ensures
            match r {
                Ok(begun) => shrink_address() matches Some(target) && (begun.0@, begun.1@)
                    == shrinking(self@, target, buffer@),
                Err(e) => shrink_address() is None && e@ is UrlParseError,
            },
    {
        match shrink_url() {
            Ok(target) => Ok(self.shrink(target, buffer)),
            Err(e) => Err(TinifyError::UrlParseError(e)),
        }
    }

    /// Begins the upload of the contents of a file, given what reading the
    /// file gave. A file that could not be read fails the job.
    pub fn from_file(self, contents: Result<Vec<u8>, std::io::Error>) -> (r: Result<
        (Pending, Request),
        TinifyError,
    >)
        ensures
            match contents {
                Ok(image) => match r {
                    Ok(begun) => shrink_address() matches Some(target) && (begun.0@, begun.1@)
                        == shrinking(self@, target, image@),
                    Err(e) => shrink_address() is None && e@ is UrlParseError,
                },
                Err(cause) => r matches Err(e) && e@ == TinifyErrorView::IOError(cause),
            },
    {
        match contents {
            Ok(image) => self.from_buffer(image.as_slice()),
            Err(cause) => Err(TinifyError::IOError(cause)),
        }
    }

    /// Begins the download of an image from `url`, which is then uploaded to
    /// the service. It fails only where the address of the service cannot be
    /// put together.
    pub fn from_url(self, url: &str) -> (r: Result<(Pending, Request), TinifyError>)
        ensures
            match r {
                Ok(begun) => shrink_address() matches Some(target) && (begun.0@, begun.1@)
                    == fetching(self@, target, url@),
                Err(e) => shrink_address() is None && e@ is UrlParseError,
            },
    {
        match shrink_url() {
            Ok(target) => Ok(self.fetch(target, url)),
            Err(e) => Err(TinifyError::UrlParseError(e)),
        }
    }

    /// Begins to send the pending operations.
    fn flush(self) -> (r: Output)
        ensures
            r@ == flushing(self@),
    {
        if self.operations.lone_transform() && self.refuses_lone_transform() {
            Output::Refused(self, TinifyError::local(INVALID, LONE_TRANSFORM))
        } else {
            let url = copy_text(&self.output);
            match url {
                None => Output::Refused(self, TinifyError::local(EMPTY, EMPTY_OUTPUT)),
                Some(url) => match self.operations.to_json() {
                    Ok(json) => {
                        let key = copy_text(&self.key);
                        let request = Request::post(url, Payload::Json(json), key);
                        Output::Send(Pending { source: self, awaiting: Awaiting::Operate }, request)
                    },
                    Err(e) => Output::Refused(self, e),
                },
            }
        }
    }

    fn refuses_lone_transform(&self) -> (r: bool)
        ensures
            r == (self@.lone_transform == LoneTransform::Reject),
    {
        match self.lone_transform {
            LoneTransform::Reject => true,
            LoneTransform::Forward => false,
        }
    }

    /// Hands out the result. With operations pending, the request that
    /// carries them comes first.
    pub fn to_buffer(self) -> (r: Output)
        ensures
            r@ == buffered(self@),
    {
        if !self.operations.is_empty() {
            self.flush()
        } else {
            let Source { key, buffer, output, operations, lone_transform, flushed } = self;
            match buffer {
                Some(bytes) => Output::Bytes(bytes),
                None => Output::Refused(
                    Source { key, buffer: None, output, operations, lone_transform, flushed },
                    TinifyError::local(EMPTY, EMPTY_BUFFER),
                ),
            }
        }
    }

    /// Hands out what is to be written to the destination file. With
    /// operations pending, the request that carries them comes first.
    pub fn to_file(self) -> (r: Output)
        ensures
            r@ == filed(self@),
    {
        if !self.operations.is_empty() {
            self.flush()
        } else {
            match self.buffer {
                Some(bytes) => Output::Bytes(bytes),
                None => Output::Nothing,
            }
        }
    }
}

impl Pending {
    /// The job as it was when the exchange began.
    pub fn source(&self) -> (r: &Source)
        ensures
            r@ == self@.source,
    {
        &self.source
    }

    /// The kind of request that is under way.
    pub fn exchange(&self) -> (r: Exchange)
        ensures
            r == self@.awaiting.exchange(),
    {
        self.awaiting.exchange()
    }

    /// Takes what the HTTP layer reports for the request under way, and
    /// says what comes next.
    pub fn receive(self, event: Result<Response, reqwest::Error>) -> (step: Step)
        ensures
            step@ == received(self@, event_of(event)),
    {
        let Pending { source, awaiting } = self;
        match event {
            Err(e) => Step::Failed(source, TinifyError::ReqwestError(e)),
            Ok(response) => {
                let Response { status, location, body } = response;
                match classify(awaiting.exchange(), status) {
                    Verdict::ClientError => Step::Rejected(
                        source,
                        Rejection { fault: Fault::Client, body },
                    ),
                    Verdict::ServerError => Step::Rejected(
                        source,
                        Rejection { fault: Fault::Server, body },
                    ),
                    Verdict::Success => match awaiting {
                        Awaiting::Fetch { target } => {
                            let key = copy_text(&source.key);
                            let request = Request::post(target, Payload::Bytes(body), key);
                            Step::Send(Pending { source, awaiting: Awaiting::Shrink }, request)
                        },
                        Awaiting::Shrink => land(source, false, location, body),
                        Awaiting::Operate => land(source, true, location, body),
                        Awaiting::Download { location: url, flush } => Step::Ready(
                            deliver(source, flush, body, Some(url)),
                        ),
                    },
                }
            },
        }
    }
}

fn deliver(source: Source, flush: bool, body: Vec<u8>, output: Option<String>) -> (r: Source)
    ensures
        r@ == source@.delivered(flush, body@, text_of(output)),
{
    let Source { key, buffer: _, output: _, operations, lone_transform, flushed: _ } = source;
    let operations = if flush {
        Operations::new()
    } else {
        operations
    };
    Source { key, buffer: Some(body), output, operations, lone_transform, flushed: flush }
}

fn land(
    source: Source,
    flush: bool,
    location: Option<Result<String, reqwest::header::ToStrError>>,
    body: Vec<u8>,
) -> (step: Step)
    ensures
        step@ == landed(source@, flush, location_of(location), body@),
{
    match location {
        None => Step::Ready(deliver(source, flush, body, None)),
        Some(Ok(url)) => {
            let request = Request::get(url.clone());
            Step::Send(
                Pending { source, awaiting: Awaiting::Download { location: url, flush } },
                request,
            )
        },
        Some(Err(e)) => Step::Failed(source, TinifyError::ReqwestConvertError(e)),
    }
}

} // verus!
