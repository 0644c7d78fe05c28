use filmapik::client::Header;
use filmapik::errors::{AppError, ErrorKind};
use filmapik::models::MovieDetail;
use filmapik::proxy::{
    embed_headers, forward, is_excluded_header, rewrite_headers, watch_request, ProxyOutcome,
    CONTENT_SECURITY_POLICY, EMBED_HOST, EXCLUDED_HEADERS, FRAME_ANCESTORS_ANY,
};

fn h(name: &str, value: &str) -> Header {
    Header { name: name.to_string(), value: value.to_string() }
}

fn detail(watch_url: Option<&str>) -> MovieDetail {
    MovieDetail {
        id: "inception-2010".to_string(),
        title: "Inception (2010)".to_string(),
        poster: String::new(),
        rating: None,
        rating_count: None,
        description: None,
        views: None,
        genres: Vec::new(),
        quality: None,
        year: None,
        duration: None,
        country: None,
        release_date: None,
        language: None,
        director: None,
        actors: Vec::new(),
        url: "http://origin.test/inception-2010/".to_string(),
        watch_url: watch_url.map(|u| u.to_string()),
        related_movies: Vec::new(),
    }
}

#[test]
fn the_excluded_names_are_a_named_list() {
    assert_eq!(
        EXCLUDED_HEADERS,
        [
            "content-length",
            "transfer-encoding",
            "connection",
            "content-encoding",
            "content-security-policy",
            "x-frame-options"
        ]
    );
    for name in EXCLUDED_HEADERS {
        assert!(is_excluded_header(name));
        assert!(is_excluded_header(&name.to_uppercase()));
    }
}

#[test]
fn the_six_excluded_names_in_any_case() {
    for name in [
        "content-length",
        "transfer-encoding",
        "connection",
        "content-encoding",
        "content-security-policy",
        "x-frame-options",
        "Content-Length",
        "TRANSFER-ENCODING",
        "Connection",
        "Content-Encoding",
        "Content-Security-Policy",
        "X-Frame-Options",
        "x-FRAME-options",
    ] {
        assert!(is_excluded_header(name), "{}", name);
    }
    for name in [
        "content-type",
        "content-security-policy-report-only",
        "x-frame-option",
        "",
        "set-cookie",
        "cache-control",
        " connection",
        "connection ",
        "content_length",
    ] {
        assert!(!is_excluded_header(name), "{}", name);
    }
}

#[test]
fn upstream_policy_is_replaced_by_the_embedding_header() {
    let upstream = vec![
        h("content-type", "text/html; charset=utf-8"),
        h("Content-Security-Policy", "frame-ancestors 'none'"),
        h("x-frame-options", "DENY"),
        h("content-length", "123"),
        h("server", "nginx"),
        h("CONTENT-SECURITY-POLICY", "default-src 'self'"),
        h("transfer-encoding", "chunked"),
        h("connection", "close"),
        h("content-encoding", "gzip"),
        h("set-cookie", "a=b"),
        h("set-cookie", "c=d"),
    ];
    let out = rewrite_headers(&upstream);
    assert_eq!(
        out,
        vec![
            h("content-type", "text/html; charset=utf-8"),
            h("server", "nginx"),
            h("set-cookie", "a=b"),
            h("set-cookie", "c=d"),
            h("content-security-policy", "frame-ancestors *"),
        ]
    );
    let policies: Vec<&Header> =
        out.iter().filter(|x| x.name.eq_ignore_ascii_case("content-security-policy")).collect();
    assert_eq!(policies.len(), 1);
    assert_eq!(policies[0].value, "frame-ancestors *");
}

#[test]
fn no_upstream_header_still_gives_the_embedding_header() {
    assert_eq!(rewrite_headers(&Vec::new()), vec![h(CONTENT_SECURITY_POLICY, FRAME_ANCESTORS_ANY)]);
    assert_eq!(FRAME_ANCESTORS_ANY, "frame-ancestors *");
}

#[test]
fn content_type_is_passed_on_verbatim() {
    let out = rewrite_headers(&vec![h("Content-Type", "Video/MP4; Codecs=\"avc1\"")]);
    assert_eq!(out[0], h("Content-Type", "Video/MP4; Codecs=\"avc1\""));
    assert_eq!(out.len(), 2);
}

#[test]
fn request_for_the_player() {
    let request =
        watch_request(&detail(Some("https://embed.test/v/abc")), "http://origin.test").unwrap();
    assert_eq!(request.url, "https://embed.test/v/abc");
    assert_eq!(request.headers, embed_headers("http://origin.test/"));
    assert_eq!(request.headers.len(), 13);
    assert!(request.headers.contains(&h("Host", EMBED_HOST)));
    assert!(request.headers.contains(&h("Host", "filmdewasa.org")));
    assert!(request.headers.contains(&h("Referer", "http://origin.test/")));
    assert!(request.headers.contains(&h("Sec-Fetch-Dest", "iframe")));
    assert!(request.headers.contains(&h("Sec-Fetch-Site", "cross-site")));
    assert!(request.headers.contains(&h("sec-ch-ua-platform", "\"Windows\"")));
    assert_eq!(request.headers[12].name, "User-Agent");
}

#[test]
fn movie_without_watch_address_is_not_found() {
    let e = watch_request(&detail(None), "http://origin.test").unwrap_err();
    assert_eq!(e.error_kind(), ErrorKind::NotFound);
    assert_eq!(e.status_code(), 404);
}

#[test]
fn body_is_forwarded_unchanged() {
    let body: Vec<u8> = vec![0, 159, 146, 150, 255, 10, 13];
    let outcome = ProxyOutcome::Answered {
        headers: vec![h("content-type", "video/mp4"), h("x-frame-options", "SAMEORIGIN")],
        body: body.clone(),
    };
    let response = forward(outcome).unwrap();
    assert_eq!(response.body, body);
    assert_eq!(
        response.headers,
        vec![h("content-type", "video/mp4"), h("content-security-policy", "frame-ancestors *")]
    );
    let empty = forward(ProxyOutcome::Answered { headers: Vec::new(), body: Vec::new() }).unwrap();
    assert!(empty.body.is_empty());
}

#[test]
fn failed_transport_is_a_proxy_error_without_body() {
    let e = forward(ProxyOutcome::Failed { reason: "timed out".to_string() }).unwrap_err();
    assert_eq!(e, AppError::UpstreamError { status: None, message: "timed out".to_string() });
    assert_eq!(e.status_code(), 502);
}
