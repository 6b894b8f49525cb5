//! What came back from a request, and the line that is logged for it.

use crate::decimal::{decimal, decimal_text};
use vstd::prelude::*;
use vstd::string::StringExecFns;

verus! {

/// Where a line is written.
#[derive(Clone, Copy, Debug, PartialEq, Eq, Structural)]
pub enum Stream {
    /// Standard output: what went well, and the shutdown notice.
    Stdout,
    /// Standard error: what failed.
    Stderr,
}

/// One line of the agent's log.
#[derive(Debug, PartialEq, Eq)]
pub struct LogLine {
    pub stream: Stream,
    /// The line, without its line end.
    pub text: String,
}

/// A log line as mathematics.
pub struct LogLineView {
    pub stream: Stream,
    pub text: Seq<char>,
}

impl View for LogLine {
    type V = LogLineView;

    open spec fn view(&self) -> LogLineView {
        LogLineView { stream: self.stream, text: self.text@ }
    }
}

impl DeepView for LogLine {
    type V = LogLineView;

    open spec fn deep_view(&self) -> LogLineView {
        self@
    }
}

/// What became of a request that was sent.
#[derive(Debug, PartialEq, Eq)]
pub enum Delivery {
    /// The endpoint answered with `status`, and `body` is its body as text.
    Answered { status: u16, body: String },
    /// The endpoint answered with `status`, but its body could not be read;
    /// `reason` says why.
    Unreadable { status: u16, reason: String },
    /// No answer came; `reason` says why.
    Failed { reason: String },
}

/// A delivery as mathematics.
pub enum DeliveryView {
    Answered { status: u16, body: Seq<char> },
    Unreadable { status: u16, reason: Seq<char> },
    Failed { reason: Seq<char> },
}

impl View for Delivery {
    type V = DeliveryView;

    open spec fn view(&self) -> DeliveryView {
        match self {
            Delivery::Answered { status, body } => DeliveryView::Answered {
                status: *status,
                body: body@,
            },
            Delivery::Unreadable { status, reason } => DeliveryView::Unreadable {
                status: *status,
                reason: reason@,
            },
            Delivery::Failed { reason } => DeliveryView::Failed { reason: reason@ },
        }
    }
}

/// Whether `status` says that the request succeeded: the codes from 200 to 299.
pub open spec fn is_success(status: u16) -> bool {
    200 <= status < 300
}

/// The reason given for an answer whose status is not a success.
pub open spec fn status_reason(status: u16) -> Seq<char> {
    "HTTP status "@ + decimal_text(status as nat)
}

/// Why a delivery failed; `None` if it did not. A delivery fails when no
/// answer came, when the answer's status is not a success, and when the body
/// of a successful answer could not be read.
pub open spec fn failure_reason(delivery: DeliveryView) -> Option<Seq<char>> {
    match delivery {
        DeliveryView::Failed { reason } => Some(reason),
        DeliveryView::Unreadable { status, reason } => if is_success(status) {
            Some(reason)
        } else {
            Some(status_reason(status))
        },
        DeliveryView::Answered { status, body } => if is_success(status) {
            None
        } else {
            Some(status_reason(status))
        },
    }
}

/// The line that reports a failure.
pub open spec fn failure_line(reason: Seq<char>) -> LogLineView {
    LogLineView { stream: Stream::Stderr, text: "Request failed: "@ + reason }
}

/// The line that reports an answer.
pub open spec fn answer_line(body: Seq<char>) -> LogLineView {
    LogLineView { stream: Stream::Stdout, text: "Received response: "@ + body }
}

/// The line logged for a delivery: the body of a successful answer on
/// standard output, the reason of anything else on standard error.
pub open spec fn report_of(delivery: DeliveryView) -> LogLineView {
    match failure_reason(delivery) {
        Some(reason) => failure_line(reason),
        None => answer_line(delivery->body),
    }
}

/// The line logged when the container runtime could not be queried.
pub open spec fn fetch_failure_line(reason: Seq<char>) -> LogLineView {
    LogLineView { stream: Stream::Stderr, text: "Snapshot failed: "@ + reason }
}

/// The line logged when the agent is interrupted.
pub open spec fn shutdown_line() -> LogLineView {
    LogLineView { stream: Stream::Stdout, text: "Shutting down agent..."@ }
}

/// Whether `status` is one of the success codes.
pub fn status_is_success(status: u16) -> (yes: bool)
    ensures
        yes == is_success(status),
{
    200 <= status && status < 300
}

fn line(stream: Stream, prefix: &str, rest: &str) -> (line: LogLine)
    ensures
        line@ == (LogLineView { stream, text: prefix@ + rest@ }),
{
    let mut text = String::from_str(prefix);
    text.append(rest);
    LogLine { stream, text }
}

fn status_failure(status: u16) -> (line: LogLine)
    ensures
        line@ == failure_line(status_reason(status)),
{
    let mut reason = String::from_str("HTTP status ");
    reason.append(decimal(status).as_str());
    line(Stream::Stderr, "Request failed: ", reason.as_str())
}

/// The line logged for `delivery`.
pub fn report_line(delivery: &Delivery) -> (line: LogLine)
    ensures
        line@ == report_of(delivery@),
{
    match delivery {
        Delivery::Failed { reason } => line(Stream::Stderr, "Request failed: ", reason.as_str()),
        Delivery::Unreadable { status, reason } => {
            if status_is_success(*status) {
                line(Stream::Stderr, "Request failed: ", reason.as_str())
            } else {
                status_failure(*status)
            }
        },
        Delivery::Answered { status, body } => {
            if status_is_success(*status) {
                line(Stream::Stdout, "Received response: ", body.as_str())
            } else {
                status_failure(*status)
            }
        },
    }
}

/// The line logged when the runtime could not be queried, for `reason`.
pub fn fetch_failure(reason: &str) -> (line: LogLine)
    ensures
        line@ == fetch_failure_line(reason@),
{
    line(Stream::Stderr, "Snapshot failed: ", reason)
}

/// The shutdown notice.
pub fn shutdown_notice() -> (line: LogLine)
    ensures
        line@ == shutdown_line(),
{
    LogLine { stream: Stream::Stdout, text: String::from_str("Shutting down agent...") }
}

} // verus!
