use selectel_mks::error::MKSError;
use selectel_mks::{Client, Method, DEFAULT_TIMEOUT_MS};

#[test]
fn new_client_default_builder() {
    let client = Client::new("https://example.org", "token_a").unwrap();

    assert_eq!(
        client.base_endpoint(),
        url::Url::parse("https://example.org").unwrap().as_str()
    );
    assert_eq!(client.token(), "token_a");
    assert_eq!(client.user_agent(), "selectel_mks/0.1.0");
    assert_eq!(client.timeout_ms(), DEFAULT_TIMEOUT_MS);
}

#[test]
fn new_client_with_builder() {
    let client = Client::builder()
        .timeout(10_000)
        .build("https://example.com", "token_b")
        .unwrap();

    assert_eq!(
        client.base_endpoint(),
        url::Url::parse("https://example.com").unwrap().as_str()
    );
    assert_eq!(client.token(), "token_b");
    assert_eq!(client.user_agent(), "selectel_mks/0.1.0");
    assert_eq!(client.timeout_ms(), 10_000);
}

#[test]
fn empty_token_is_refused_first() {
    assert!(matches!(
        Client::new("https://example.org", ""),
        Err(MKSError::EmptyTokenError)
    ));
    // The token check comes before endpoint validation.
    assert!(matches!(
        Client::new("not a url", ""),
        Err(MKSError::EmptyTokenError)
    ));
}

#[test]
fn invalid_endpoint_is_refused() {
    assert!(matches!(
        Client::new("not a url", "token_a"),
        Err(MKSError::EndpointError)
    ));
}

#[test]
fn endpoint_is_normalized() {
    // The url crate appends the root path to a bare authority; the stored
    // endpoint is the normalized serialization, not the input text.
    let client = Client::new("https://example.org", "token_a").unwrap();
    assert_eq!(client.base_endpoint(), "https://example.org/");
}

#[test]
fn make_uri_joins_exactly_once() {
    let client = Client::new("https://ru-3.mks.selcloud.ru", "token_a").unwrap();
    let uri = client.make_uri("/v1/clusters/abc").unwrap();
    assert_eq!(uri, "https://ru-3.mks.selcloud.ru/v1/clusters/abc");
}

#[test]
fn make_uri_keeps_base_path_segments() {
    // A base endpoint with its own path keeps every segment: the resource
    // path is joined after it, with exactly one slash between.
    let client = Client::new("https://example.org/api/", "token_a").unwrap();
    let uri = client.make_uri("/v1/clusters").unwrap();
    assert_eq!(uri, "https://example.org/api/v1/clusters");
}

#[test]
fn make_uri_inserts_missing_slash() {
    let client = Client::new("https://example.org", "token_a").unwrap();
    let uri = client.make_uri("v1/clusters").unwrap();
    assert_eq!(uri, "https://example.org/v1/clusters");
}

#[test]
fn make_uri_rejects_illegal_uri() {
    let client = Client::new("https://example.org", "token_a").unwrap();
    assert!(matches!(
        client.make_uri("/v1/bad path"),
        Err(MKSError::UrlError)
    ));
}

#[test]
fn new_request_without_body() {
    let client = Client::new("https://example.org", "token_a").unwrap();
    let req = client.new_request(Method::Get, "/v1/clusters", None).unwrap();
    assert_eq!(req.method, Method::Get);
    assert_eq!(req.uri, "https://example.org/v1/clusters");
    assert_eq!(req.headers.len(), 2);
    assert_eq!(req.headers[0].0, "user-agent");
    assert_eq!(req.headers[0].1, "selectel_mks/0.1.0");
    assert_eq!(req.headers[1].0, "x-auth-token");
    assert_eq!(req.headers[1].1, "token_a");
    assert!(req.body.is_none());
}

#[test]
fn new_request_with_body_sets_content_headers() {
    let client = Client::new("https://example.org", "token_a").unwrap();
    let body = String::from("{\"cluster\":{}}");
    let req = client
        .new_request(Method::Post, "/v1/clusters", Some(body.clone()))
        .unwrap();
    assert_eq!(req.headers.len(), 4);
    assert_eq!(req.headers[2].0, "content-length");
    assert_eq!(req.headers[2].1, body.len().to_string());
    assert_eq!(req.headers[3].0, "content-type");
    assert_eq!(req.headers[3].1, "application/json");
    assert_eq!(req.body.as_deref(), Some(body.as_str()));
}

#[test]
fn new_request_rejects_illegal_token_header() {
    // A token with a control character is not legal header text.
    let client = Client::new("https://example.org", "bad\ntoken").unwrap();
    assert!(matches!(
        client.new_request(Method::Get, "/v1/clusters", None),
        Err(MKSError::RequestError)
    ));
}
