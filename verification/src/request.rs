//! The HTTP requests of the agent, as plain data.

use crate::config::{Config, ConfigView};
use crate::inventory::{payload_text, Snapshot, SnapshotView};
use vstd::prelude::*;
use vstd::string::StringExecFns;

verus! {

/// The method of a request.
#[derive(Clone, Copy, Debug, PartialEq, Eq, Structural)]
pub enum Method {
    Get,
    Post,
}

/// One header line.
#[derive(Debug, PartialEq, Eq)]
pub struct Header {
    pub name: String,
    pub value: String,
}

/// A header line as mathematics.
pub struct HeaderView {
    pub name: Seq<char>,
    pub value: Seq<char>,
}

impl View for Header {
    type V = HeaderView;

    open spec fn view(&self) -> HeaderView {
        HeaderView { name: self.name@, value: self.value@ }
    }
}

impl DeepView for Header {
    type V = HeaderView;

    open spec fn deep_view(&self) -> HeaderView {
        self@
    }
}

/// A request that the agent wants sent: everything that goes on the wire is
/// in it.
#[derive(Debug, PartialEq, Eq)]
pub struct Request {
    pub method: Method,
    pub url: String,
    /// The headers, in the order in which they are set.
    pub headers: Vec<Header>,
    /// The body; `None` where the request has none.
    pub body: Option<String>,
}

/// A request as mathematics.
pub struct RequestView {
    pub method: Method,
    pub url: Seq<char>,
    pub headers: Seq<HeaderView>,
    pub body: Option<Seq<char>>,
}

impl View for Request {
    type V = RequestView;

    open spec fn view(&self) -> RequestView {
        RequestView {
            method: self.method,
            url: self.url@,
            headers: self.headers.deep_view(),
            body: self.body.deep_view(),
        }
    }
}

/// The report of a snapshot: a POST to the configured endpoint, marked as
/// JSON, carrying the agent's token, with the snapshot's payload as its body.
pub open spec fn status_request_of(config: ConfigView, snapshot: SnapshotView) -> RequestView {
    RequestView {
        method: Method::Post,
        url: config.url,
        headers: seq![
            HeaderView { name: "Content-Type"@, value: "application/json"@ },
            HeaderView { name: "x-agent-token"@, value: config.token },
        ],
        body: Some(payload_text(snapshot)),
    }
}

/// The probe: a GET of the configured endpoint, with no header and no body.
pub open spec fn probe_request_of(config: ConfigView) -> RequestView {
    RequestView { method: Method::Get, url: config.url, headers: Seq::empty(), body: None }
}

/// The request that reports `snapshot`.
pub fn status_request(config: &Config, snapshot: &Snapshot) -> (request: Request)
    ensures
        request@ == status_request_of(config@, snapshot@),
{
    let mut headers: Vec<Header> = Vec::new();
    headers.push(
        Header {
            name: String::from_str("Content-Type"),
            value: String::from_str("application/json"),
        },
    );
    headers.push(Header { name: String::from_str("x-agent-token"), value: config.token.clone() });
    let request = Request {
        method: Method::Post,
        url: config.url.clone(),
        headers,
        body: Some(snapshot.payload()),
    };
    assert(request@.headers =~= status_request_of(config@, snapshot@).headers);
    request
}

/// The request that probes the endpoint.
pub fn probe_request(config: &Config) -> (request: Request)
    ensures
        request@ == probe_request_of(config@),
{
    let request = Request {
        method: Method::Get,
        url: config.url.clone(),
        headers: Vec::new(),
        body: None,
    };
    assert(request@.headers =~= Seq::<HeaderView>::empty());
    request
}

} // verus!
