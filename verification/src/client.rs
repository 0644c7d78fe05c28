//! The upstream client, without its transport: what is sent to the origin,
//! and how its answer is judged. Sending is left to the caller.

use vstd::prelude::*;
use crate::errors::AppError;
use crate::text::{decimal, push_decimal, push_str, string_of};

verus! {

/// A header: a name and a value.
#[derive(Clone, Debug, PartialEq, Eq)]
pub struct Header {
    pub name: String,
    pub value: String,
}

/// What a `Header` holds, as mathematical values.
pub ghost struct HeaderView {
    pub name: Seq<char>,
    pub value: Seq<char>,
}

impl DeepView for Header {
    type V = HeaderView;

    open spec fn deep_view(&self) -> HeaderView {
        HeaderView { name: self.name@, value: self.value@ }
    }
}

impl View for Header {
    type V = HeaderView;

    open spec fn view(&self) -> HeaderView {
        self.deep_view()
    }
}

/// A request for a page of the origin.
#[derive(Clone, Debug, PartialEq, Eq)]
pub struct UpstreamRequest {
    pub url: String,
    /// The address that the request claims to come from.
    pub referer: String,
    /// The headers sent besides the referer.
    pub headers: Vec<Header>,
}

/// What a `UpstreamRequest` holds, as mathematical values.
pub ghost struct UpstreamRequestView {
    pub url: Seq<char>,
    pub referer: Seq<char>,
    pub headers: Seq<HeaderView>,
}

impl DeepView for UpstreamRequest {
    type V = UpstreamRequestView;

    open spec fn deep_view(&self) -> UpstreamRequestView {
        UpstreamRequestView {
            url: self.url@,
            referer: self.referer@,
            headers: self.headers.deep_view(),
        }
    }
}

impl View for UpstreamRequest {
    type V = UpstreamRequestView;

    open spec fn view(&self) -> UpstreamRequestView {
        self.deep_view()
    }
}

/// How a request ended.
#[derive(Clone, Debug, PartialEq, Eq)]
pub enum FetchOutcome {
    /// No answer could be had, or its body could not be read.
    Failed { reason: String },
    /// The origin answered.
    Answered { status: u16, body: String },
}

/// The headers of a desktop browser that opens a page by its address.
pub open spec fn browser_header_set() -> Seq<HeaderView> {
    seq![
        HeaderView {
            name: "user-agent"@,
            value: "Mozilla/5.0 (Windows NT 10.0; Win64; x64) AppleWebKit/537.36 (KHTML, like Gecko) Chrome/120.0.0.0 Safari/537.36"@,
        },
        HeaderView {
            name: "accept"@,
            value: "text/html,application/xhtml+xml,application/xml;q=0.9,image/avif,image/webp,image/apng,*/*;q=0.8,application/signed-exchange;v=b3;q=0.7"@,
        },
        HeaderView { name: "accept-language"@, value: "id,en-US;q=0.9,en;q=0.8"@ },
        HeaderView { name: "cache-control"@, value: "max-age=0"@ },
        HeaderView { name: "connection"@, value: "keep-alive"@ },
        HeaderView { name: "dnt"@, value: "1"@ },
        HeaderView { name: "upgrade-insecure-requests"@, value: "1"@ },
        HeaderView { name: "sec-fetch-dest"@, value: "document"@ },
        HeaderView { name: "sec-fetch-mode"@, value: "navigate"@ },
        HeaderView { name: "sec-fetch-site"@, value: "none"@ },
        HeaderView { name: "sec-fetch-user"@, value: "?1"@ },
    ]
}

/// Whether `status` is in the success range.
pub open spec fn is_success(status: u16) -> bool {
    200 <= status <= 299
}

/// The body of the answer, when there is one in the success range.
pub open spec fn page_body(outcome: FetchOutcome) -> Option<Seq<char>> {
    match outcome {
        FetchOutcome::Answered { status, body } => if is_success(status) {
            Some(body@)
        } else {
            None
        },
        FetchOutcome::Failed { .. } => None,
    }
}

/// The status of the answer, when there is one.
pub open spec fn answered_status(outcome: FetchOutcome) -> Option<u16> {
    match outcome {
        FetchOutcome::Answered { status, .. } => Some(status),
        FetchOutcome::Failed { .. } => None,
    }
}

/// What the error says: the reason of the failure, or the status.
pub open spec fn failure_message(outcome: FetchOutcome) -> Seq<char> {
    match outcome {
        FetchOutcome::Answered { status, .. } => "Status HTTP error: "@ + decimal(status as nat),
        FetchOutcome::Failed { reason } => reason@,
    }
}

/// A header with the given name and value.
pub fn header(name: &str, value: &str) -> (h: Header)
    ensures
        h@ == (HeaderView { name: name@, value: value@ }),
{
    Header { name: String::from_str(name), value: String::from_str(value) }
}

/// The headers sent with every request for a page.
pub fn browser_headers() -> (r: Vec<Header>)
    ensures
        r.deep_view() == browser_header_set(),
{
    let mut r: Vec<Header> = Vec::new();
    r.push(
        header(
            "user-agent",
            "Mozilla/5.0 (Windows NT 10.0; Win64; x64) AppleWebKit/537.36 (KHTML, like Gecko) Chrome/120.0.0.0 Safari/537.36",
        ),
    );
    r.push(
        header(
            "accept",
            "text/html,application/xhtml+xml,application/xml;q=0.9,image/avif,image/webp,image/apng,*/*;q=0.8,application/signed-exchange;v=b3;q=0.7",
        ),
    );
    r.push(header("accept-language", "id,en-US;q=0.9,en;q=0.8"));
    r.push(header("cache-control", "max-age=0"));
    r.push(header("connection", "keep-alive"));
    r.push(header("dnt", "1"));
    r.push(header("upgrade-insecure-requests", "1"));
    r.push(header("sec-fetch-dest", "document"));
    r.push(header("sec-fetch-mode", "navigate"));
    r.push(header("sec-fetch-site", "none"));
    r.push(header("sec-fetch-user", "?1"));
    assert(r.deep_view() =~= browser_header_set());
    r
}

/// Whether `status` is in the success range.
pub fn status_is_success(status: u16) -> (r: bool)
    ensures
        r == is_success(status),
{
    200 <= status && status <= 299
}

/// The body of an answer in the success range. A request that failed, and
/// an answer with any other status, is an upstream error; the error keeps
/// the status.
pub fn check_response(outcome: FetchOutcome) -> (r: Result<String, AppError>)
    ensures
        match page_body(outcome) {
            Some(body) => r matches Ok(b) && b@ == body,
            None => r matches Err(AppError::UpstreamError { status, message }) && status
                == answered_status(outcome) && message@ == failure_message(outcome),
        },
{
    match outcome {
        FetchOutcome::Failed { reason } => Err(
            AppError::UpstreamError { status: None, message: reason },
        ),
        FetchOutcome::Answered { status, body } => {
            if status_is_success(status) {
                Ok(body)
            } else {
                let mut message: Vec<char> = Vec::new();
                push_str("Status HTTP error: ", &mut message);
                push_decimal(status as u64, &mut message);
                Err(AppError::UpstreamError { status: Some(status), message: string_of(&message) })
            }
        },
    }
}

} // verus!
