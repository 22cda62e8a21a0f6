use std::cell::Cell;

use proxy_prawn::api_client::ApiClient;
use proxy_prawn::auth::{
    extract_token_from_header, unauthorized, AuthError, AuthLayer, AuthMiddleware, Reply,
    ResponseBody,
};
use proxy_prawn::config::AppConfig;
use proxy_prawn::state::AppState;

const AUTHORIZATION: &str = "Authorization";

fn mock_state() -> AppState {
    let mock_client = ApiClient::new("http://example.com/v1".into(), "test-api-key".into());
    let mut config = AppConfig::default();
    config.openai_api_key = "test-api-key".to_string();
    AppState {
        client: mock_client,
        config,
    }
}

fn mock_service(_req: http::Request<()>) -> http::Response<()> {
    let mut response = http::Response::new(());
    response
        .headers_mut()
        .insert("content-type", http::HeaderValue::from_static("text/plain"));
    response
        .headers_mut()
        .insert("server", http::HeaderValue::from_static("MyService"));
    response
}

fn call(
    middleware: &AuthMiddleware<fn(http::Request<()>) -> http::Response<()>>,
    req: http::Request<()>,
) -> Reply<http::Response<()>> {
    let header = req.headers().get(AUTHORIZATION).map(|v| v.as_bytes().to_vec());
    let inner = middleware.inner;
    middleware.handle(header.as_deref(), req, inner)
}

fn status_of(reply: &Reply<http::Response<()>>) -> u16 {
    match reply {
        Reply::Forwarded(resp) => resp.status().as_u16(),
        Reply::Rejected(x) => x.status,
    }
}

fn request(header: Option<&str>) -> http::Request<()> {
    let mut builder = http::Request::builder().method("GET").uri("/test");
    if let Some(h) = header {
        builder = builder.header(AUTHORIZATION, h);
    }
    builder.body(()).unwrap()
}

fn middleware() -> AuthMiddleware<fn(http::Request<()>) -> http::Response<()>> {
    AuthMiddleware::new(mock_service, mock_state())
}

fn expect_rejection(reply: &Reply<http::Response<()>>, status: u16, message: &str) {
    match reply {
        Reply::Forwarded(_) => panic!("the request was forwarded"),
        Reply::Rejected(x) => {
            assert_eq!(x.status, status);
            assert_eq!(x.body.message, message);
            assert_eq!(x.body.data, "");
        }
    }
}

#[test]
fn test_call_middleware() {
    let middleware = middleware();

    let resp_no_auth = call(&middleware, request(None));
    assert_eq!(status_of(&resp_no_auth), 401);

    let resp_invalid_auth = call(&middleware, request(Some("InvalidAuth")));
    assert_eq!(status_of(&resp_invalid_auth), 422);

    let resp_invalid_token = call(&middleware, request(Some("bearer invalid_token")));
    assert_eq!(status_of(&resp_invalid_token), 401);

    let valid = format!("bearer {}", middleware.state.config.openai_api_key);
    let resp_valid_token = call(&middleware, request(Some(&valid)));
    assert_eq!(status_of(&resp_valid_token), 200);
}

#[test]
fn missing_header_gives_401_envelope() {
    let reply = call(&middleware(), request(None));
    expect_rejection(&reply, 401, "Missing authorization header");
}

#[test]
fn single_word_header_gives_422_envelope() {
    let reply = call(&middleware(), request(Some("InvalidAuth")));
    expect_rejection(&reply, 422, "Invalid authorization header");
}

#[test]
fn wrong_token_gives_401_envelope() {
    let reply = call(&middleware(), request(Some("bearer wrong-token")));
    expect_rejection(&reply, 401, "Invalid openai api key");
}

#[test]
fn right_token_passes_inner_response_through() {
    let reply = call(&middleware(), request(Some("bearer test-api-key")));
    match reply {
        Reply::Forwarded(resp) => {
            assert_eq!(resp.status().as_u16(), 200);
            assert_eq!(resp.headers().get("server").unwrap(), "MyService");
            assert_eq!(resp.headers().get("content-type").unwrap(), "text/plain");
        }
        Reply::Rejected(_) => panic!("the request was turned away"),
    }
}

#[test]
fn inner_handler_runs_once_with_the_original_request() {
    let m = middleware();
    let calls = Cell::new(0u32);
    let req = http::Request::builder()
        .method("POST")
        .uri("/v1/models?x=1")
        .header(AUTHORIZATION, "Bearer test-api-key")
        .body(())
        .unwrap();
    let reply = m.handle(Some(b"Bearer test-api-key".as_slice()), req, |r: http::Request<()>| {
        calls.set(calls.get() + 1);
        (r.method().clone(), r.uri().to_string())
    });
    assert_eq!(calls.get(), 1);
    match reply {
        Reply::Forwarded((method, uri)) => {
            assert_eq!(method, http::Method::POST);
            assert_eq!(uri, "/v1/models?x=1");
        }
        Reply::Rejected(_) => panic!("the request was turned away"),
    }
}

#[test]
fn inner_handler_not_run_on_rejection() {
    let m = middleware();
    let calls = Cell::new(0u32);
    for header in [None, Some("InvalidAuth"), Some("bearer nope"), Some("basic test-api-key")] {
        let reply = m.handle(header.map(|h| h.as_bytes()), (), |_: ()| {
            calls.set(calls.get() + 1);
        });
        assert!(matches!(reply, Reply::Rejected(_)));
    }
    assert_eq!(calls.get(), 0);
}

#[test]
fn same_request_gives_same_reply() {
    let m = middleware();
    for header in ["bearer wrong", "InvalidAuth", "bearer test-api-key"] {
        let a = call(&m, request(Some(header)));
        let b = call(&m, request(Some(header)));
        assert_eq!(status_of(&a), status_of(&b));
        if let (Reply::Rejected(x), Reply::Rejected(y)) = (&a, &b) {
            assert_eq!(x.body.message, y.body.message);
            assert_eq!(x.body.data, y.body.data);
        }
    }
}

#[test]
fn layer_shares_the_secret() {
    let layer = AuthLayer::new_with_state(mock_state());
    let m = layer.layer(mock_service as fn(http::Request<()>) -> http::Response<()>);
    assert_eq!(m.state.config.openai_api_key, "test-api-key");
    assert_eq!(status_of(&call(&m, request(Some("bearer test-api-key")))), 200);
    assert_eq!(status_of(&call(&m, request(Some("bearer other")))), 401);
}

#[test]
fn extractor_accepts_any_case_and_spacing() {
    assert_eq!(extract_token_from_header(Some(b"Bearer abc".as_slice())), Ok("abc".to_string()));
    assert_eq!(extract_token_from_header(Some(b"BEARER abc".as_slice())), Ok("abc".to_string()));
    assert_eq!(extract_token_from_header(Some(b"bEaReR abc".as_slice())), Ok("abc".to_string()));
    assert_eq!(extract_token_from_header(Some(b"  bearer \t abc  ".as_slice())), Ok("abc".to_string()));
    assert_eq!(extract_token_from_header(Some(b"bearer\tx-y.z".as_slice())), Ok("x-y.z".to_string()));
}

#[test]
fn extractor_rejects_malformed_headers() {
    let bad: [&[u8]; 9] = [
        b"",
        b"   ",
        b"bearer",
        b"abc",
        b"basic abc",
        b"bearer a b",
        b"bearers abc",
        b"bear abc",
        b"bearer a\x7f",
    ];
    for h in bad {
        assert_eq!(extract_token_from_header(Some(h)), Err(AuthError::InvalidAuthHeader));
    }
    assert_eq!(
        extract_token_from_header(Some(b"bearer \xc3\xa9".as_slice())),
        Err(AuthError::InvalidAuthHeader)
    );
    assert_eq!(
        extract_token_from_header(Some(b"bearer a\nb".as_slice())),
        Err(AuthError::InvalidAuthHeader)
    );
}

#[test]
fn extractor_reports_missing_header() {
    assert_eq!(extract_token_from_header(None), Err(AuthError::MissingAuthHeader));
}

#[test]
fn errors_map_to_status_and_message() {
    assert_eq!(AuthError::MissingAuthHeader.status_code(), 401);
    assert_eq!(AuthError::InvalidAuthHeader.status_code(), 422);
    assert_eq!(AuthError::InvalidToken.status_code(), 401);
    assert_eq!(AuthError::MissingAuthHeader.message(), "Missing authorization header");
    assert_eq!(AuthError::InvalidAuthHeader.message(), "Invalid authorization header");
    assert_eq!(AuthError::InvalidToken.message(), "Invalid openai api key");
    let r = unauthorized(AuthError::InvalidAuthHeader);
    assert_eq!(r.status, 422);
    assert_eq!(r.body.message, "Invalid authorization header");
    assert_eq!(r.body.data, "");
}

#[test]
fn response_body_keeps_message_and_data() {
    let b = ResponseBody::new("hello", 7u8);
    assert_eq!(b.message, "hello");
    assert_eq!(b.data, 7);
}
