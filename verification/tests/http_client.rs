use reqwest::header::{HeaderMap, HeaderValue};
use screeps_rust_api::{
    Encoding, Method, ScreepsConfig, ScreepsError, ScreepsHttpClient, TokenHolder,
};

fn full_config() -> ScreepsConfig {
    ScreepsConfig::new(
        Some("token".to_string()),
        Some("email".to_string()),
        Some("password".to_string()),
        "screeps.com".to_string(),
        true,
        10000,
    )
}

#[test]
fn test_build_url() {
    let config = ScreepsConfig::new(
        Some("token".to_string()),
        Some("email".to_string()),
        Some("password".to_string()),
        "screeps.com".to_string(),
        true,
        10000,
    );
    let client = ScreepsHttpClient::new(config);
    assert_eq!(
        client.build_url("/auth/signin"),
        "https://screeps.com/api/auth/signin"
    )
}

#[test]
fn test_build_headers() {
    let config = ScreepsConfig::new(
        Some("token".to_string()),
        Some("email".to_string()),
        Some("password".to_string()),
        "screeps.com".to_string(),
        true,
        10000,
    );
    let client = ScreepsHttpClient::new(config);
    assert_eq!(
        client
            .build_headers()
            .get("X-Token")
            .unwrap()
            .to_str()
            .unwrap(),
        "token"
    );
}

#[test]
fn build_url_for_example_host() {
    let config = ScreepsConfig::new(None, None, None, "example.org".to_string(), true, 15);
    let client = ScreepsHttpClient::new(config);
    assert_eq!(client.build_url("/auth/me"), "https://example.org/api/auth/me");
}

#[test]
fn build_url_without_tls() {
    let config = ScreepsConfig::new(None, None, None, "localhost:21025".to_string(), false, 15);
    let client = ScreepsHttpClient::new(config);
    assert_eq!(client.build_url("/game/time"), "http://localhost:21025/api/game/time");
    assert_eq!(client.build_url(""), "http://localhost:21025/api");
}

#[test]
fn headers_carry_token_under_both_names() {
    let client = ScreepsHttpClient::new(full_config());
    assert!(client.token.is_sendable());
    let headers = client.build_headers();
    assert_eq!(headers.len(), 2);
    assert_eq!(headers.get("x-token").unwrap().as_bytes(), b"token");
    assert_eq!(headers.get("x-username").unwrap().as_bytes(), b"token");
}

#[test]
fn headers_without_token_are_empty() {
    let config = ScreepsConfig::new(None, None, None, "screeps.com".to_string(), true, 15);
    let client = ScreepsHttpClient::new(config);
    assert!(client.token.is_sendable());
    assert!(client.build_headers().is_empty());
}

#[test]
fn token_with_control_character_is_not_sendable() {
    assert!(!TokenHolder::new(Some("to\nken".to_string())).is_sendable());
    assert!(!TokenHolder::new(Some("\u{7f}".to_string())).is_sendable());
    assert!(TokenHolder::new(Some("to\tken caf\u{e9}".to_string())).is_sendable());
    assert!(TokenHolder::new(Some(String::new())).is_sendable());
    assert!(TokenHolder::new(None).is_sendable());
}

#[test]
fn sendable_token_beyond_ascii_is_sent_as_utf8() {
    let holder = TokenHolder::new(Some("caf\u{e9}".to_string()));
    assert!(holder.is_sendable());
    let headers = holder.build_headers();
    assert_eq!(headers.get("x-token").unwrap().as_bytes(), "caf\u{e9}".as_bytes());
}

#[test]
fn token_holder_last_writer_wins() {
    let mut holder = TokenHolder::new(None);
    assert_eq!(holder.get(), None);
    holder.set("first".to_string());
    holder.set("second".to_string());
    assert_eq!(holder.get(), Some("second".to_string()));
}

#[test]
fn new_client_takes_token_from_config() {
    let client = ScreepsHttpClient::new(full_config());
    assert_eq!(client.token.get(), Some("token".to_string()));
    assert_eq!(client.config.timeout, 10000);
    assert_eq!(client.rate_limits.global_limit.limit, 120);
}

#[test]
fn token_from_response_is_sent_with_next_request() {
    let mut client = ScreepsHttpClient::new(full_config());
    let mut response = HeaderMap::new();
    response.insert("X-Token", HeaderValue::from_static("fresh-token"));
    client.record_response(&Method::Get, "/auth/me", &response);
    assert_eq!(client.token.get(), Some("fresh-token".to_string()));
    let plan = client.request(Method::Get, "/user/name", 0);
    assert_eq!(plan.headers.get("x-token").unwrap().to_str().unwrap(), "fresh-token");
    assert_eq!(plan.headers.get("x-username").unwrap().to_str().unwrap(), "fresh-token");
}

#[test]
fn response_without_token_keeps_token() {
    let mut client = ScreepsHttpClient::new(full_config());
    let response = HeaderMap::new();
    client.record_response(&Method::Get, "/auth/me", &response);
    assert_eq!(client.token.get(), Some("token".to_string()));
}

#[test]
fn response_with_unprintable_token_keeps_token() {
    let mut client = ScreepsHttpClient::new(full_config());
    let mut response = HeaderMap::new();
    response.insert("x-token", HeaderValue::from_bytes(&[0x61, 0xff]).unwrap());
    client.record_response(&Method::Get, "/auth/me", &response);
    assert_eq!(client.token.get(), Some("token".to_string()));
}

#[test]
fn first_of_several_token_values_counts() {
    let mut holder = TokenHolder::new(None);
    let mut response = HeaderMap::new();
    response.append("x-token", HeaderValue::from_static("one"));
    response.append("x-token", HeaderValue::from_static("two"));
    holder.update_from_headers(&response);
    assert_eq!(holder.get(), Some("one".to_string()));
}

#[test]
fn request_plans_url_headers_and_wait() {
    let mut client = ScreepsHttpClient::new(full_config());
    let mut response = HeaderMap::new();
    response.insert("x-ratelimit-limit", HeaderValue::from_static("120"));
    response.insert("x-ratelimit-remaining", HeaderValue::from_static("0"));
    response.insert("x-ratelimit-reset", HeaderValue::from_static("1700000000"));
    client.record_response(&Method::Get, "/game/time", &response);
    let plan = client.request(Method::Get, "/game/time", 1_699_999_995_000);
    assert_eq!(plan.method, Method::Get);
    assert_eq!(plan.url, "https://screeps.com/api/game/time");
    assert_eq!(plan.wait_millis, 5000);
    assert_eq!(plan.headers.get("x-token").unwrap().as_bytes(), b"token");
    let later = client.request(Method::Get, "/game/time", 1_700_000_000_000);
    assert_eq!(later.wait_millis, 0);
}

#[test]
fn request_does_not_count_down() {
    let client = ScreepsHttpClient::new(full_config());
    let before = client.rate_limits.get_limit(&Method::Get, "/game/time").remaining;
    let _ = client.request(Method::Get, "/game/time", 0);
    let _ = client.request(Method::Get, "/game/time", 0);
    assert_eq!(client.rate_limits.get_limit(&Method::Get, "/game/time").remaining, before);
}

#[test]
fn auth_without_password_is_config_error() {
    let config = ScreepsConfig::new(
        None,
        Some("email".to_string()),
        None,
        "screeps.com".to_string(),
        true,
        15,
    );
    let client = ScreepsHttpClient::new(config);
    match client.auth(0) {
        Err(ScreepsError::Config(reason)) => assert_eq!(reason, "email or password is none"),
        other => panic!("expected a configuration error, got {:?}", other),
    }
}

#[test]
fn auth_without_email_is_config_error() {
    let config = ScreepsConfig::new(
        Some("token".to_string()),
        None,
        Some("password".to_string()),
        "screeps.com".to_string(),
        true,
        15,
    );
    let client = ScreepsHttpClient::new(config);
    assert!(matches!(client.auth(0), Err(ScreepsError::Config(_))));
}

#[test]
fn auth_with_credentials_prepares_sign_in() {
    let client = ScreepsHttpClient::new(full_config());
    let sign_in = client.auth(0).unwrap();
    assert_eq!(sign_in.email, "email");
    assert_eq!(sign_in.password, "password");
    assert_eq!(sign_in.request.method, Method::Post);
    assert_eq!(sign_in.request.url, "https://screeps.com/api/auth/signin");
    assert_eq!(sign_in.request.wait_millis, 0);
    assert_eq!(sign_in.request.headers.get("x-token").unwrap().as_bytes(), b"token");
}

#[test]
fn auth_does_not_touch_the_token() {
    let client = ScreepsHttpClient::new(full_config());
    let _ = client.auth(0).unwrap();
    assert_eq!(client.token.get(), Some("token".to_string()));
}

#[test]
fn method_alone_decides_the_encoding() {
    assert_eq!(Method::Get.encoding(), Encoding::Query);
    assert_eq!(Method::Post.encoding(), Encoding::Json);
    let client = ScreepsHttpClient::new(full_config());
    assert_eq!(client.request(Method::Get, "/auth/signin", 0).encoding, Encoding::Query);
    assert_eq!(client.request(Method::Post, "/game/time", 0).encoding, Encoding::Json);
    assert_eq!(client.auth(0).unwrap().request.encoding, Encoding::Json);
}
