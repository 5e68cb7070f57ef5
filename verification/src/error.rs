//! The ways an invocation can fail, the text of each, and what is reported
//! of a failure when the invocation ends.

use vstd::prelude::*;
use crate::client::{status_line, status_text};
use crate::console::{err, shown, Badge, Line, LineView, Tone};
use crate::text::texts;

verus! {

/// A place of the backend that a request goes to.
#[derive(Debug, Clone, Copy, PartialEq, Eq)]
pub enum Endpoint {
    Health,
    Process,
    Compare,
    Info,
}

/// What the body of a successful answer is read as.
#[derive(Debug, Clone, Copy, PartialEq, Eq)]
pub enum Shape {
    Process,
    Compare,
    Info,
}

impl Shape {
    /// The endpoint whose answers have this shape.
    pub open spec fn endpoint(self) -> Endpoint {
        match self {
            Shape::Process => Endpoint::Process,
            Shape::Compare => Endpoint::Compare,
            Shape::Info => Endpoint::Info,
        }
    }

    /// Gives the endpoint whose answers have this shape.
    pub fn to_endpoint(&self) -> (r: Endpoint)
        ensures
            r == self.endpoint(),
    {
        match self {
            Shape::Process => Endpoint::Process,
            Shape::Compare => Endpoint::Compare,
            Shape::Info => Endpoint::Info,
        }
    }
}

/// A failure of the invocation.
#[derive(Debug, PartialEq, Eq)]
pub enum Error {
    /// The request did not reach the backend, or no answer came back.
    /// `causes` is what the transport said, outermost first.
    Unsent { endpoint: Endpoint, causes: Vec<String> },
    /// The backend answered with a status outside the success range;
    /// `text` is the body of that answer.
    Refused { status: u16, text: String },
    /// The body of a successful answer did not have the expected shape.
    Unreadable { shape: Shape, causes: Vec<String> },
    /// The health probe was answered with a status outside the success
    /// range.
    Unhealthy,
    /// The bitrate of a compression ends in neither `k` nor `M`.
    InvalidBitrate,
    /// A comparison was asked for without a backend.
    ComparisonNeedsBackend,
    /// Media information was asked for without a backend.
    InfoNeedsBackend,
    /// `ffmpeg` could not be started.
    SpawnFailed { causes: Vec<String> },
    /// `ffmpeg` ran and reported failure.
    CommandFailed,
}

/// View of an [`Error`].
pub enum ErrorView {
    Unsent { endpoint: Endpoint, causes: Seq<Seq<char>> },
    Refused { status: u16, text: Seq<char> },
    Unreadable { shape: Shape, causes: Seq<Seq<char>> },
    Unhealthy,
    InvalidBitrate,
    ComparisonNeedsBackend,
    InfoNeedsBackend,
    SpawnFailed { causes: Seq<Seq<char>> },
    CommandFailed,
}

impl View for Error {
    type V = ErrorView;

    open spec fn view(&self) -> ErrorView {
        match self {
            Error::Unsent { endpoint, causes } => ErrorView::Unsent {
                endpoint: *endpoint,
                causes: texts(causes@),
            },
            Error::Refused { status, text } => ErrorView::Refused { status: *status, text: text@ },
            Error::Unreadable { shape, causes } => ErrorView::Unreadable {
                shape: *shape,
                causes: texts(causes@),
            },
            Error::Unhealthy => ErrorView::Unhealthy,
            Error::InvalidBitrate => ErrorView::InvalidBitrate,
            Error::ComparisonNeedsBackend => ErrorView::ComparisonNeedsBackend,
            Error::InfoNeedsBackend => ErrorView::InfoNeedsBackend,
            Error::SpawnFailed { causes } => ErrorView::SpawnFailed { causes: texts(causes@) },
            Error::CommandFailed => ErrorView::CommandFailed,
        }
    }
}

/// What is said when a request to `endpoint` could not be sent.
pub open spec fn send_failure_text(endpoint: Endpoint) -> Seq<char> {
    match endpoint {
        Endpoint::Health => "Failed to send health check request"@,
        Endpoint::Process => "Failed to send process request to backend"@,
        Endpoint::Compare => "Failed to send compare request to backend"@,
        Endpoint::Info => "Failed to send info request to backend"@,
    }
}

/// What is said when a body could not be read as `shape`.
pub open spec fn parse_failure_text(shape: Shape) -> Seq<char> {
    match shape {
        Shape::Process => "Failed to parse process response"@,
        Shape::Compare => "Failed to parse compare response"@,
        Shape::Info => "Failed to parse media info response"@,
    }
}

/// What is said when the backend answers with the status shown as `status`
/// and the body `text`.
pub open spec fn refusal_text(status: Seq<char>, text: Seq<char>) -> Seq<char> {
    "Backend returned error: "@ + status + " - "@ + text
}

impl ErrorView {
    /// The text of the failure itself, without its causes.
    pub open spec fn message(self) -> Seq<char> {
        match self {
            ErrorView::Unsent { endpoint, .. } => send_failure_text(endpoint),
            ErrorView::Refused { status, text } => refusal_text(status_text(status), text),
            ErrorView::Unreadable { shape, .. } => parse_failure_text(shape),
            ErrorView::Unhealthy => "Backend health check failed"@,
            ErrorView::InvalidBitrate => "Invalid bitrate format. Must end with 'k' or 'M'."@,
            ErrorView::ComparisonNeedsBackend => "Local comparison requires backend server"@,
            ErrorView::InfoNeedsBackend => "Local media info requires backend server"@,
            ErrorView::SpawnFailed { .. } => "Failed to execute ffmpeg"@,
            ErrorView::CommandFailed => "ffmpeg command failed"@,
        }
    }

    /// What lies behind the failure, outermost cause first.
    pub open spec fn causes(self) -> Seq<Seq<char>> {
        match self {
            ErrorView::Unsent { causes, .. } => causes,
            ErrorView::Unreadable { causes, .. } => causes,
            ErrorView::SpawnFailed { causes } => causes,
            _ => Seq::empty(),
        }
    }

    /// The lines that report the failure: the message, then one line for
    /// each cause.
    pub open spec fn report(self) -> Seq<LineView> {
        seq![err(Badge::Failure, Tone::BrightRed, "Error: "@ + self.message())] + cause_lines(
            self.causes(),
        )
    }
}

/// The exit code of an invocation that ended with `result`: zero for
/// success, one for any failure.
pub open spec fn exit_status(result: Result<(), ErrorView>) -> int {
    if result is Ok {
        0
    } else {
        1
    }
}

/// The view of how an invocation ended.
pub open spec fn ended(result: Result<(), Error>) -> Result<(), ErrorView> {
    match result {
        Ok(()) => Ok(()),
        Err(e) => Err(e@),
    }
}

/// Gives what is said when a request to `endpoint` could not be sent.
fn send_failure_message(endpoint: Endpoint) -> (r: &'static str)
    ensures
        r@ == send_failure_text(endpoint),
{
    match endpoint {
        Endpoint::Health => "Failed to send health check request",
        Endpoint::Process => "Failed to send process request to backend",
        Endpoint::Compare => "Failed to send compare request to backend",
        Endpoint::Info => "Failed to send info request to backend",
    }
}

/// Gives what is said when a body could not be read as `shape`.
fn parse_failure_message(shape: Shape) -> (r: &'static str)
    ensures
        r@ == parse_failure_text(shape),
{
    match shape {
        Shape::Process => "Failed to parse process response",
        Shape::Compare => "Failed to parse compare response",
        Shape::Info => "Failed to parse media info response",
    }
}

/// Writes what is said when the backend answers with the status shown as
/// `status` and the body `text`.
pub fn refusal_message(status: &str, text: &str) -> (r: String)
    ensures
        r@ == refusal_text(status@, text@),
{
    let mut r = String::from_str("Backend returned error: ");
    r.append(status);
    r.append(" - ");
    r.append(text);
    r
}

impl Error {
    /// The text of the failure itself, without its causes.
    pub fn message(&self) -> (r: String)
        ensures
            r@ == self@.message(),
    {
        match self {
            Error::Unsent { endpoint, .. } => String::from_str(send_failure_message(*endpoint)),
            Error::Refused { status, text } => {
                let line = status_line(*status);
                refusal_message(line.as_str(), text.as_str())
            },
            Error::Unreadable { shape, .. } => String::from_str(parse_failure_message(*shape)),
            Error::Unhealthy => String::from_str("Backend health check failed"),
            Error::InvalidBitrate => String::from_str(
                "Invalid bitrate format. Must end with 'k' or 'M'.",
            ),
            Error::ComparisonNeedsBackend => String::from_str(
                "Local comparison requires backend server",
            ),
            Error::InfoNeedsBackend => String::from_str("Local media info requires backend server"),
            Error::SpawnFailed { .. } => String::from_str("Failed to execute ffmpeg"),
            Error::CommandFailed => String::from_str("ffmpeg command failed"),
        }
    }

    /// The lines that report the failure when the invocation ends on it.
    pub fn report(&self) -> (r: Vec<Line>)
        ensures
            shown(r@) == self@.report(),
    {
        let mut head = String::from_str("Error: ");
        let message = self.message();
        head.append(message.as_str());
        let mut r: Vec<Line> = Vec::new();
        r.push(Line::err(Badge::Failure, Tone::BrightRed, head));
        match self {
            Error::Unsent { causes, .. } => push_causes(&mut r, causes),
            Error::Unreadable { causes, .. } => push_causes(&mut r, causes),
            Error::SpawnFailed { causes } => push_causes(&mut r, causes),
            _ => {},
        }
        assert(shown(r@) =~= self@.report());
        r
    }
}

/// The lines that name the causes `causes`, one each.
pub open spec fn cause_lines(causes: Seq<Seq<char>>) -> Seq<LineView> {
    Seq::new(causes.len(), |i: int| LineView::Detail { text: "Caused by: "@ + causes[i] })
}

/// Adds one line for each cause to a report.
fn push_causes(lines: &mut Vec<Line>, causes: &Vec<String>)
    ensures
        shown(final(lines)@) == shown(old(lines)@) + cause_lines(texts(causes@)),
{
    let ghost before = shown(lines@);
    let mut i: usize = 0;
    while i < causes.len()
        invariant
            i <= causes.len(),
            shown(lines@) == before + cause_lines(texts(causes@).take(i as int)),
        decreases causes.len() - i,
    {
        let ghost prev = shown(lines@);
        let mut text = String::from_str("Caused by: ");
        text.append(causes[i].as_str());
        lines.push(Line::Detail { text });
        let ghost added = LineView::Detail { text: "Caused by: "@ + causes@[i as int]@ };
        assert(shown(lines@) =~= prev.push(added));
        assert(cause_lines(texts(causes@).take(i as int + 1)) =~= cause_lines(
            texts(causes@).take(i as int),
        ).push(added));
        i = i + 1;
    }
    assert(texts(causes@).take(causes.len() as int) =~= texts(causes@));
}

/// The exit code for an invocation that ended with `result`.
pub fn exit_code(result: &Result<(), Error>) -> (r: i32)
    ensures
        r == exit_status(ended(*result)),
{
    match result {
        Ok(_) => 0,
        Err(_) => 1,
    }
}

} // verus!
