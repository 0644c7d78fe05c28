//! The content proxy, without its transport: what is asked of the embed
//! origin, and what of its answer is passed on.
//!
//! The answer's body is passed on as it is. Of its headers, those that
//! describe the framing of the body on the wire, and those by which the
//! origin forbids being shown inside another site, are left out; in their
//! place stands one header that allows every site to embed the resource.

use vstd::prelude::*;
use crate::client::{header, Header, HeaderView};
use crate::errors::AppError;
use crate::models::MovieDetail;
use crate::text::{chars_of, eq_ignore_ascii_case, eq_ignore_case};

verus! {

/// The name of the header that says who may embed a resource.
pub const CONTENT_SECURITY_POLICY: &'static str = "content-security-policy";

/// The policy that lets every site embed a resource.
pub const FRAME_ANCESTORS_ANY: &'static str = "frame-ancestors *";

/// The host name that the embed origin expects.
pub const EMBED_HOST: &'static str = "filmdewasa.org";

/// The names of the headers that are not passed on, in lower case. The
/// first four describe how the body was framed on the wire and would be
/// stale; the last two are the origin's means to forbid embedding.
pub const EXCLUDED_HEADERS: [&'static str; 6] = [
    "content-length",
    "transfer-encoding",
    "connection",
    "content-encoding",
    "content-security-policy",
    "x-frame-options",
];

/// The names of the headers that are not passed on.
pub open spec fn excluded_headers() -> Seq<Seq<char>> {
    Seq::new(6, |i: int| EXCLUDED_HEADERS@[i]@)
}

/// Whether a header of this name is left out, whatever the case of its
/// letters.
pub open spec fn is_excluded(name: Seq<char>) -> bool {
    exists|i: int|
        0 <= i < excluded_headers().len() && eq_ignore_case(name, #[trigger] excluded_headers()[i])
}

/// The headers of `headers` that are passed on, in their order.
pub open spec fn forwarded(headers: Seq<HeaderView>) -> Seq<HeaderView>
    decreases headers.len(),
{
    if headers.len() == 0 {
        Seq::empty()
    } else {
        let rest = forwarded(headers.drop_last());
        if is_excluded(headers.last().name) {
            rest
        } else {
            rest.push(headers.last())
        }
    }
}

/// The header that allows every site to embed the resource.
pub open spec fn embedding_header() -> HeaderView {
    HeaderView { name: CONTENT_SECURITY_POLICY@, value: FRAME_ANCESTORS_ANY@ }
}

/// The headers of the proxy's answer: those passed on, then the embedding
/// header.
pub open spec fn rewritten(headers: Seq<HeaderView>) -> Seq<HeaderView> {
    forwarded(headers).push(embedding_header())
}

/// The headers sent to the embed origin: those of a browser that loads the
/// resource into an inline frame of the page at `referer`.
pub open spec fn embed_header_set(referer: Seq<char>) -> Seq<HeaderView> {
    seq![
        HeaderView { name: "Accept-Language"@, value: "en-US,en;q=0.9"@ },
        HeaderView { name: "Connection"@, value: "keep-alive"@ },
        HeaderView { name: "Host"@, value: EMBED_HOST@ },
        HeaderView { name: "Referer"@, value: referer },
        HeaderView {
            name: "sec-ch-ua"@,
            value: "\"Chromium\";v=\"134\", \"Not:A-Brand\";v=\"24\", \"Microsoft Edge\";v=\"134\""@,
        },
        HeaderView { name: "sec-ch-ua-mobile"@, value: "?0"@ },
        HeaderView { name: "sec-ch-ua-platform"@, value: "\"Windows\""@ },
        HeaderView { name: "Sec-Fetch-Dest"@, value: "iframe"@ },
        HeaderView { name: "Sec-Fetch-Mode"@, value: "navigate"@ },
        HeaderView { name: "Sec-Fetch-Site"@, value: "cross-site"@ },
        HeaderView { name: "Sec-Fetch-Storage-Access"@, value: "active"@ },
        HeaderView { name: "Upgrade-Insecure-Requests"@, value: "1"@ },
        HeaderView {
            name: "User-Agent"@,
            value: "Mozilla/5.0 (Windows NT 10.0; Win64; x64) AppleWebKit/537.36 (KHTML, like Gecko) Chrome/134.0.0.0 Safari/537.36 Edg/134.0.0.0"@,
        },
    ]
}

/// A request for a resource of the embed origin.
#[derive(Clone, Debug, PartialEq, Eq)]
pub struct ProxyRequest {
    pub url: String,
    pub headers: Vec<Header>,
}

/// How a request to the embed origin ended.
#[derive(Clone, Debug, PartialEq, Eq)]
pub enum ProxyOutcome {
    /// No answer could be had, or its body could not be read to the end.
    Failed { reason: String },
    /// The embed origin answered, and this is all of its body.
    Answered { headers: Vec<Header>, body: Vec<u8> },
}

/// The proxy's answer.
#[derive(Clone, Debug, PartialEq, Eq)]
pub struct ProxyResponse {
    pub headers: Vec<Header>,
    pub body: Vec<u8>,
}

/// Whether a header of this name is left out.
pub fn is_excluded_header(name: &str) -> (r: bool)
    ensures
        r == is_excluded(name@),
{
    let n = chars_of(name);
    let mut i: usize = 0;
    while i < 6
        invariant
            i <= 6,
            n@ == name@,
            forall|j: int| 0 <= j < i ==> !eq_ignore_case(name@, #[trigger] excluded_headers()[j]),
        decreases 6 - i,
    {
        if eq_ignore_ascii_case(&n, &chars_of(EXCLUDED_HEADERS[i])) {
            assert(eq_ignore_case(name@, excluded_headers()[i as int]));
            return true;
        }
        i += 1;
    }
    false
}

/// The headers of the proxy's answer to an upstream answer with the
/// headers `upstream`.
pub fn rewrite_headers(upstream: &Vec<Header>) -> (r: Vec<Header>)
    ensures
        r.deep_view() == rewritten(upstream.deep_view()),
{
    let mut r: Vec<Header> = Vec::new();
    let mut i: usize = 0;
    let ghost all = upstream.deep_view();
    assert(all.subrange(0, 0) =~= Seq::<HeaderView>::empty());
    assert(r.deep_view() =~= Seq::<HeaderView>::empty());
    while i < upstream.len()
        invariant
            i <= upstream.len(),
            all == upstream.deep_view(),
            r.deep_view() == forwarded(all.subrange(0, i as int)),
        decreases upstream.len() - i,
    {
        let ghost before = r.deep_view();
        assert(all.subrange(0, i + 1).drop_last() =~= all.subrange(0, i as int));
        assert(all.subrange(0, i + 1).last() == upstream@[i as int]@);
        let h = &upstream[i];
        if !is_excluded_header(h.name.as_str()) {
            r.push(header(h.name.as_str(), h.value.as_str()));
            assert(r.deep_view() =~= before.push(h@));
        }
        i += 1;
    }
    assert(all.subrange(0, i as int) =~= all);
    let ghost kept = r.deep_view();
    r.push(header(CONTENT_SECURITY_POLICY, FRAME_ANCESTORS_ANY));
    assert(r.deep_view() =~= kept.push(embedding_header()));
    r
}

/// The headers sent to the embed origin.
pub fn embed_headers(referer: &str) -> (r: Vec<Header>)
    ensures
        r.deep_view() == embed_header_set(referer@),
{
    let mut r: Vec<Header> = Vec::new();
    r.push(header("Accept-Language", "en-US,en;q=0.9"));
    r.push(header("Connection", "keep-alive"));
    r.push(header("Host", EMBED_HOST));
    r.push(header("Referer", referer));
    r.push(
        header(
            "sec-ch-ua",
            "\"Chromium\";v=\"134\", \"Not:A-Brand\";v=\"24\", \"Microsoft Edge\";v=\"134\"",
        ),
    );
    r.push(header("sec-ch-ua-mobile", "?0"));
    r.push(header("sec-ch-ua-platform", "\"Windows\""));
    r.push(header("Sec-Fetch-Dest", "iframe"));
    r.push(header("Sec-Fetch-Mode", "navigate"));
    r.push(header("Sec-Fetch-Site", "cross-site"));
    r.push(header("Sec-Fetch-Storage-Access", "active"));
    r.push(header("Upgrade-Insecure-Requests", "1"));
    r.push(
        header(
            "User-Agent",
            "Mozilla/5.0 (Windows NT 10.0; Win64; x64) AppleWebKit/537.36 (KHTML, like Gecko) Chrome/134.0.0.0 Safari/537.36 Edg/134.0.0.0",
        ),
    );
    assert(r.deep_view() =~= embed_header_set(referer@));
    r
}

/// The request for the player of a movie: the watch address of its page,
/// asked for as from the catalog origin at `base`. A movie whose page has
/// no watch address is not found.
pub fn watch_request(detail: &MovieDetail, base: &str) -> (r: Result<ProxyRequest, AppError>)
    ensures
        match detail@.watch_url {
            Some(url) => r matches Ok(request) && request.url@ == url
                && request.headers.deep_view() == embed_header_set(base@ + "/"@),
            None => r matches Err(AppError::NotFound(m)) && m@ == "URL video tidak ditemukan"@,
        },
{
    match &detail.watch_url {
        Some(url) => {
            let referer = String::from_str(base).concat("/");
            Ok(ProxyRequest { url: url.clone(), headers: embed_headers(referer.as_str()) })
        },
        None => Err(AppError::NotFound(String::from_str("URL video tidak ditemukan"))),
    }
}

/// The proxy's answer to the outcome of its request: the body as it came,
/// under the rewritten headers. A request that failed is an upstream
/// error, and nothing of a body is passed on.
pub fn forward(outcome: ProxyOutcome) -> (r: Result<ProxyResponse, AppError>)
    ensures
        match outcome {
            ProxyOutcome::Answered { headers, body } => r matches Ok(response)
                && response.headers.deep_view() == rewritten(headers.deep_view())
                && response.body@ == body@,
            ProxyOutcome::Failed { reason } => r matches Err(
                AppError::UpstreamError { status, message },
            ) && status is None && message@ == reason@,
        },
{
    match outcome {
        ProxyOutcome::Answered { headers, body } => Ok(
            ProxyResponse { headers: rewrite_headers(&headers), body: body },
        ),
        ProxyOutcome::Failed { reason } => Err(
            AppError::UpstreamError { status: None, message: reason },
        ),
    }
}

/// What is passed on was not among the headers left out.
pub proof fn lemma_forwarded(headers: Seq<HeaderView>)
    ensures
        forwarded(headers).len() <= headers.len(),
        forall|i: int|
            0 <= i < forwarded(headers).len() ==> !is_excluded(
                (#[trigger] forwarded(headers)[i]).name,
            ),
    decreases headers.len(),
{
    if headers.len() > 0 {
        lemma_forwarded(headers.drop_last());
    }
}

/// Whatever the upstream answer says, the proxy's answer has exactly one
/// header that sets a content security policy, the last one, and it allows
/// every site to embed the resource. In particular no such header of the
/// upstream answer is passed on, nor any other that is to be left out.
pub proof fn law_embedding_allowed(headers: Seq<HeaderView>)
    ensures
        rewritten(headers).last() == embedding_header(),
        forall|i: int|
            0 <= i < rewritten(headers).len() && eq_ignore_case(
                (#[trigger] rewritten(headers)[i]).name,
                CONTENT_SECURITY_POLICY@,
            ) ==> i == rewritten(headers).len() - 1 && rewritten(headers)[i].value
                == FRAME_ANCESTORS_ANY@,
        forall|i: int|
            0 <= i < rewritten(headers).len() - 1 ==> !is_excluded(
                (#[trigger] rewritten(headers)[i]).name,
            ),
{
    lemma_forwarded(headers);
    let out = rewritten(headers);
    let kept = forwarded(headers);
    assert forall|i: int|
        0 <= i < out.len() && eq_ignore_case(
            (#[trigger] out[i]).name,
            CONTENT_SECURITY_POLICY@,
        ) implies i == out.len() - 1 && out[i].value == FRAME_ANCESTORS_ANY@ by {
        if i < kept.len() {
            assert(out[i] == kept[i]);
            assert(excluded_headers()[4] == CONTENT_SECURITY_POLICY@);
            assert(is_excluded(kept[i].name));
        }
    }
    assert forall|i: int| 0 <= i < out.len() - 1 implies !is_excluded((#[trigger] out[i]).name) by {
        assert(out[i] == kept[i]);
    }
}


/// Every header that is not to be left out is passed on as it is.
pub proof fn law_the_rest_is_passed_on(headers: Seq<HeaderView>, i: int) -> (j: int)
    requires
        0 <= i < headers.len(),
        !is_excluded(headers[i].name),
    ensures
        0 <= j < rewritten(headers).len() - 1,
        rewritten(headers)[j] == headers[i],
    decreases headers.len(),
{
    let front = headers.drop_last();
    let rest = forwarded(front);
    if i == headers.len() - 1 {
        rest.len() as int
    } else {
        assert(front[i] == headers[i]);
        let j = law_the_rest_is_passed_on(front, i);
        assert(rewritten(front)[j] == rest[j]);
        j
    }
}

/// The content type of the upstream answer is not among the headers left
/// out, however its name is written; so it is passed on, value and all.
pub proof fn law_content_type_is_passed_on(name: Seq<char>)
    requires
        eq_ignore_case(name, "content-type"@),
    ensures
        !is_excluded(name),
{
    reveal_strlit("content-type");
    reveal_strlit("content-length");
    reveal_strlit("transfer-encoding");
    reveal_strlit("connection");
    reveal_strlit("content-encoding");
    reveal_strlit("content-security-policy");
    reveal_strlit("x-frame-options");
    assert(name.len() == 12);
    assert(excluded_headers()[0].len() == 14);
    assert(excluded_headers()[1].len() == 17);
    assert(excluded_headers()[2].len() == 10);
    assert(excluded_headers()[3].len() == 16);
    assert(excluded_headers()[4].len() == 23);
    assert(excluded_headers()[5].len() == 15);
}

} // verus!
