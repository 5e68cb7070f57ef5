//! The backend client: which request each call sends, and what is made of
//! what comes back. The exchange itself is carried out by the caller.

use vstd::prelude::*;
use crate::error::{ended, Endpoint, Error, ErrorView, Shape};
use crate::models::{
    CompareRequest, CompareRequestView, CompareResult, CompareResultView, MediaInfo,
    MediaInfoView, ProcessRequest, ProcessRequestView, ProcessResponse, ProcessResponseView,
};
use crate::text::{decimal, opt_text, texts, to_decimal};

verus! {

/// The backend that is asked when no other is named.
pub const DEFAULT_BACKEND_URL: &'static str = "http://localhost:8080";

/// How long an exchange with the backend may take, in seconds.
pub const TIMEOUT_SECONDS: u64 = 30;

/// Where the backend is, and how long to wait for it.
#[derive(Debug, PartialEq, Eq)]
pub struct ApiClient {
    pub base_url: String,
    pub timeout_seconds: u64,
}

/// View of an [`ApiClient`].
pub struct ApiClientView {
    pub base_url: Seq<char>,
    pub timeout_seconds: u64,
}

impl View for ApiClient {
    type V = ApiClientView;

    open spec fn view(&self) -> ApiClientView {
        ApiClientView { base_url: self.base_url@, timeout_seconds: self.timeout_seconds }
    }
}

/// How a request is made.
#[derive(Debug, Clone, Copy, PartialEq, Eq)]
pub enum Method {
    Get,
    Post,
}

/// What a request carries, to be written as JSON.
#[derive(Debug, PartialEq, Eq)]
pub enum Body {
    Empty,
    Process(ProcessRequest),
    Compare(CompareRequest),
}

/// View of a [`Body`].
pub enum BodyView {
    Empty,
    Process(ProcessRequestView),
    Compare(CompareRequestView),
}

impl View for Body {
    type V = BodyView;

    open spec fn view(&self) -> BodyView {
        match self {
            Body::Empty => BodyView::Empty,
            Body::Process(r) => BodyView::Process(r@),
            Body::Compare(r) => BodyView::Compare(r@),
        }
    }
}

/// A request to the backend.
#[derive(Debug, PartialEq, Eq)]
pub struct HttpRequest {
    pub method: Method,
    pub url: String,
    pub body: Body,
    /// How long the whole exchange may take, in seconds.
    pub timeout_seconds: u64,
}

/// View of an [`HttpRequest`].
pub struct HttpRequestView {
    pub method: Method,
    pub url: Seq<char>,
    pub body: BodyView,
    pub timeout_seconds: u64,
}

impl View for HttpRequest {
    type V = HttpRequestView;

    open spec fn view(&self) -> HttpRequestView {
        HttpRequestView {
            method: self.method,
            url: self.url@,
            body: self.body@,
            timeout_seconds: self.timeout_seconds,
        }
    }
}

/// The body of a successful answer, read in one of the three shapes.
#[derive(Debug, PartialEq, Eq)]
pub enum Payload {
    Process(ProcessResponse),
    Compare(CompareResult),
    Info(MediaInfo),
}

/// View of a [`Payload`].
pub enum PayloadView {
    Process(ProcessResponseView),
    Compare(CompareResultView),
    Info(MediaInfoView),
}

impl View for Payload {
    type V = PayloadView;

    open spec fn view(&self) -> PayloadView {
        match self {
            Payload::Process(p) => PayloadView::Process(p@),
            Payload::Compare(p) => PayloadView::Compare(p@),
            Payload::Info(p) => PayloadView::Info(p@),
        }
    }
}

/// How the sending of a request ended.
#[derive(Debug, PartialEq, Eq)]
pub enum Delivery {
    /// No answer came; the transport's account of it, outermost cause first.
    Unsent(Vec<String>),
    /// An answer came, with this status code.
    Status(u16),
}

/// View of a [`Delivery`].
pub enum DeliveryView {
    Unsent(Seq<Seq<char>>),
    Status(u16),
}

impl View for Delivery {
    type V = DeliveryView;

    open spec fn view(&self) -> DeliveryView {
        match self {
            Delivery::Unsent(causes) => DeliveryView::Unsent(texts(causes@)),
            Delivery::Status(code) => DeliveryView::Status(*code),
        }
    }
}

/// How a whole exchange ended.
#[derive(Debug, PartialEq, Eq)]
pub enum Reply {
    /// No answer came; the transport's account of it, outermost cause first.
    Unsent(Vec<String>),
    /// The status was outside the success range; `text` is the body.
    Refused { status: u16, text: String },
    /// The status was in the success range, and the body could not be read
    /// in the expected shape; the reader's account of it.
    Unreadable(Vec<String>),
    /// The status was in the success range, and this is the body.
    Body(Payload),
}

/// View of a [`Reply`].
pub enum ReplyView {
    Unsent(Seq<Seq<char>>),
    Refused { status: u16, text: Seq<char> },
    Unreadable(Seq<Seq<char>>),
    Body(PayloadView),
}

impl View for Reply {
    type V = ReplyView;

    open spec fn view(&self) -> ReplyView {
        match self {
            Reply::Unsent(causes) => ReplyView::Unsent(texts(causes@)),
            Reply::Refused { status, text } => ReplyView::Refused { status: *status, text: text@ },
            Reply::Unreadable(causes) => ReplyView::Unreadable(texts(causes@)),
            Reply::Body(payload) => ReplyView::Body(payload@),
        }
    }
}

/// The phrase that the `http` crate's table of status codes has for `code`,
/// where it has one.
pub uninterp spec fn reason_phrase(code: u16) -> Option<Seq<char>>;

/// Looks `code` up in the table of canonical reason phrases that
/// `reqwest::StatusCode` (the `http` crate's type) carries. A code outside
/// the range that `StatusCode::from_u16` takes has no phrase. The contract
/// only gives the result its name, [`reason_phrase`].
#[verifier::external_body]
fn canonical_reason(code: u16) -> (r: Option<String>)
    ensures
        opt_text(r) == reason_phrase(code),
{
    match reqwest::StatusCode::from_u16(code) {
        Ok(status) => match status.canonical_reason() {
            Some(reason) => Some(reason.to_string()),
            None => None,
        },
        Err(_) => None,
    }
}

/// A status as it is shown with the reason phrase `reason`: the code, a
/// space, and the phrase, or a stand-in where there is none.
pub open spec fn status_shown(code: u16, reason: Option<Seq<char>>) -> Seq<char> {
    decimal(code as nat) + " "@ + match reason {
        Some(phrase) => phrase,
        None => "<unknown status code>"@,
    }
}

/// A status as it is shown: the code, a space, and its reason phrase or a
/// stand-in where it has none.
pub open spec fn status_text(code: u16) -> Seq<char> {
    status_shown(code, reason_phrase(code))
}

/// The view of an optional string slice.
pub open spec fn opt_str(o: Option<&str>) -> Option<Seq<char>> {
    match o {
        Some(s) => Some(s@),
        None => None,
    }
}

/// Writes a status as it is shown with the reason phrase `reason`.
pub fn status_with(code: u16, reason: Option<&str>) -> (r: String)
    ensures
        r@ == status_shown(code, opt_str(reason)),
{
    let mut r = to_decimal(code as u64);
    r.append(" ");
    match reason {
        Some(phrase) => r.append(phrase),
        None => r.append("<unknown status code>"),
    }
    r
}

/// Writes a status as it is shown.
pub fn status_line(code: u16) -> (r: String)
    ensures
        r@ == status_text(code),
{
    match canonical_reason(code) {
        Some(phrase) => status_with(code, Some(phrase.as_str())),
        None => status_with(code, None),
    }
}

/// Whether a status code lies in the success range.
pub open spec fn success(code: u16) -> bool {
    200 <= code < 300
}

/// Tells whether a status code lies in the success range.
pub fn is_success(code: u16) -> (r: bool)
    ensures
        r == success(code),
{
    200 <= code && code < 300
}

/// The client for a backend address, or for the default one where none is
/// given.
pub open spec fn client_for(base_url: Option<Seq<char>>) -> ApiClientView {
    ApiClientView {
        base_url: match base_url {
            Some(url) => url,
            None => DEFAULT_BACKEND_URL@,
        },
        timeout_seconds: TIMEOUT_SECONDS,
    }
}

impl ApiClientView {
    /// The probe that asks whether the backend is there.
    pub open spec fn health_request(self) -> HttpRequestView {
        HttpRequestView {
            method: Method::Get,
            url: self.base_url + "/health"@,
            body: BodyView::Empty,
            timeout_seconds: self.timeout_seconds,
        }
    }

    /// The request that hands a processing job to the backend.
    pub open spec fn process_request(self, request: ProcessRequestView) -> HttpRequestView {
        HttpRequestView {
            method: Method::Post,
            url: self.base_url + "/api/process"@,
            body: BodyView::Process(request),
            timeout_seconds: self.timeout_seconds,
        }
    }

    /// The request that asks the backend to compare two files.
    pub open spec fn compare_request(
        self,
        original: Seq<char>,
        processed: Seq<char>,
    ) -> HttpRequestView {
        HttpRequestView {
            method: Method::Post,
            url: self.base_url + "/api/compare"@,
            body: BodyView::Compare(CompareRequestView { original, processed }),
            timeout_seconds: self.timeout_seconds,
        }
    }

    /// The request that asks the backend about one file; the path goes into
    /// the query as it is.
    pub open spec fn info_request(self, file_path: Seq<char>) -> HttpRequestView {
        HttpRequestView {
            method: Method::Get,
            url: self.base_url + "/api/info?path="@ + file_path,
            body: BodyView::Empty,
            timeout_seconds: self.timeout_seconds,
        }
    }
}

/// What a health probe that ended in `delivery` says of the backend.
pub open spec fn health(delivery: DeliveryView) -> Result<(), ErrorView> {
    match delivery {
        DeliveryView::Unsent(causes) => Err(
            ErrorView::Unsent { endpoint: Endpoint::Health, causes },
        ),
        DeliveryView::Status(code) => if success(code) {
            Ok(())
        } else {
            Err(ErrorView::Unhealthy)
        },
    }
}

impl PayloadView {
    /// The shape that the payload was read in.
    pub open spec fn shape(self) -> Shape {
        match self {
            PayloadView::Process(_) => Shape::Process,
            PayloadView::Compare(_) => Shape::Compare,
            PayloadView::Info(_) => Shape::Info,
        }
    }
}

/// What an exchange that ended in `reply` yields where a body of shape
/// `shape` was expected: the body where it came in that shape, else the
/// failure. A body of another shape counts as unreadable.
pub open spec fn answer(shape: Shape, reply: ReplyView) -> Result<PayloadView, ErrorView> {
    match reply {
        ReplyView::Unsent(causes) => Err(ErrorView::Unsent { endpoint: shape.endpoint(), causes }),
        ReplyView::Refused { status, text } => Err(ErrorView::Refused { status, text }),
        ReplyView::Unreadable(causes) => Err(ErrorView::Unreadable { shape, causes }),
        ReplyView::Body(payload) => if payload.shape() == shape {
            Ok(payload)
        } else {
            Err(ErrorView::Unreadable { shape, causes: Seq::empty() })
        },
    }
}

/// The failure that `reply` stands for where a body of shape `shape` was
/// expected and `reply` does not carry one.
fn failure(shape: Shape, reply: Reply) -> (r: Error)
    requires
        answer(shape, reply@) is Err,
    ensures
        answer(shape, reply@) == Err::<PayloadView, ErrorView>(r@),
{
    match reply {
        Reply::Unsent(causes) => Error::Unsent { endpoint: shape.to_endpoint(), causes },
        Reply::Refused { status, text } => Error::Refused { status, text },
        Reply::Unreadable(causes) => Error::Unreadable { shape, causes },
        Reply::Body(_) => {
            let causes: Vec<String> = Vec::new();
            assert(texts(causes@) =~= Seq::<Seq<char>>::empty());
            Error::Unreadable { shape, causes }
        },
    }
}

impl ApiClient {
    /// Makes the client for the backend at `base_url`, or at
    /// [`DEFAULT_BACKEND_URL`] where none is given.
    pub fn new(base_url: Option<String>) -> (r: ApiClient)
        ensures
            r@ == client_for(opt_text(base_url)),
    {
        let base_url = match base_url {
            Some(url) => url,
            None => String::from_str(DEFAULT_BACKEND_URL),
        };
        ApiClient { base_url, timeout_seconds: TIMEOUT_SECONDS }
    }

    /// The address of `path` on the backend.
    fn url(&self, path: &str) -> (r: String)
        ensures
            r@ == self@.base_url + path@,
    {
        let mut r = self.base_url.clone();
        r.append(path);
        r
    }

    /// Builds the probe that asks whether the backend is there.
    pub fn health_request(&self) -> (r: HttpRequest)
        ensures
            r@ == self@.health_request(),
    {
        HttpRequest {
            method: Method::Get,
            url: self.url("/health"),
            body: Body::Empty,
            timeout_seconds: self.timeout_seconds,
        }
    }

    /// Builds the request that hands `request` to the backend.
    pub fn process_request(&self, request: ProcessRequest) -> (r: HttpRequest)
        ensures
            r@ == self@.process_request(request@),
    {
        HttpRequest {
            method: Method::Post,
            url: self.url("/api/process"),
            body: Body::Process(request),
            timeout_seconds: self.timeout_seconds,
        }
    }

    /// Builds the request that asks the backend to compare two files.
    pub fn compare_request(&self, original: &str, processed: &str) -> (r: HttpRequest)
        ensures
            r@ == self@.compare_request(original@, processed@),
    {
        let request = CompareRequest {
            original: String::from_str(original),
            processed: String::from_str(processed),
        };
        HttpRequest {
            method: Method::Post,
            url: self.url("/api/compare"),
            body: Body::Compare(request),
            timeout_seconds: self.timeout_seconds,
        }
    }

    /// Builds the request that asks the backend about the file at
    /// `file_path`.
    pub fn info_request(&self, file_path: &str) -> (r: HttpRequest)
        ensures
            r@ == self@.info_request(file_path@),
    {
        let mut url = self.url("/api/info?path=");
        url.append(file_path);
        HttpRequest {
            method: Method::Get,
            url,
            body: Body::Empty,
            timeout_seconds: self.timeout_seconds,
        }
    }

    /// Reads the end of a health probe: the backend is there exactly where
    /// an answer came with a status in the success range.
    pub fn check_health(&self, delivery: Delivery) -> (r: Result<(), Error>)
        ensures
            ended(r) == health(delivery@),
    {
        match delivery {
            Delivery::Unsent(causes) => Err(Error::Unsent { endpoint: Endpoint::Health, causes }),
            Delivery::Status(code) => if is_success(code) {
                Ok(())
            } else {
                Err(Error::Unhealthy)
            },
        }
    }

    /// Reads the end of a processing exchange: the backend's answer where
    /// one came with a status in the success range and a body of the right
    /// shape, else the failure.
    pub fn process_media(&self, reply: Reply) -> (r: Result<ProcessResponse, Error>)
        ensures
            match r {
                Ok(response) => answer(Shape::Process, reply@) == Ok::<PayloadView, ErrorView>(
                    PayloadView::Process(response@),
                ),
                Err(e) => answer(Shape::Process, reply@) == Err::<PayloadView, ErrorView>(e@),
            },
    {
        match reply {
            Reply::Body(Payload::Process(response)) => Ok(response),
            other => Err(failure(Shape::Process, other)),
        }
    }

    /// Reads the end of a comparison exchange, as [`Self::process_media`]
    /// does for processing.
    pub fn compare_media(&self, reply: Reply) -> (r: Result<CompareResult, Error>)
        ensures
            match r {
                Ok(result) => answer(Shape::Compare, reply@) == Ok::<PayloadView, ErrorView>(
                    PayloadView::Compare(result@),
                ),
                Err(e) => answer(Shape::Compare, reply@) == Err::<PayloadView, ErrorView>(e@),
            },
    {
        match reply {
            Reply::Body(Payload::Compare(result)) => Ok(result),
            other => Err(failure(Shape::Compare, other)),
        }
    }

    /// Reads the end of an information exchange, as [`Self::process_media`]
    /// does for processing.
    pub fn get_media_info(&self, reply: Reply) -> (r: Result<MediaInfo, Error>)
        ensures
            match r {
                Ok(info) => answer(Shape::Info, reply@) == Ok::<PayloadView, ErrorView>(
                    PayloadView::Info(info@),
                ),
                Err(e) => answer(Shape::Info, reply@) == Err::<PayloadView, ErrorView>(e@),
            },
    {
        match reply {
            Reply::Body(Payload::Info(info)) => Ok(info),
            other => Err(failure(Shape::Info, other)),
        }
    }
}

} // verus!
