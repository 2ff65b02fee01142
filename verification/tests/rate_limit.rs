use reqwest::header::{HeaderMap, HeaderValue};
use screeps_rust_api::{Method, Period, RateLimit, RateLimits};

fn quota_headers(limit: &'static str, remaining: &'static str, reset: &'static str) -> HeaderMap {
    let mut headers = HeaderMap::new();
    headers.insert("x-ratelimit-limit", HeaderValue::from_static(limit));
    headers.insert("x-ratelimit-remaining", HeaderValue::from_static(remaining));
    headers.insert("x-ratelimit-reset", HeaderValue::from_static(reset));
    headers
}

fn numbers(quota: &RateLimit) -> (i32, Period, i32, u128) {
    (quota.limit, quota.period, quota.remaining, quota.reset)
}

#[test]
fn new_quota_holds_its_arguments() {
    let quota = RateLimit::new(10, Period::Day, 3, 77);
    assert_eq!(numbers(&quota), (10, Period::Day, 3, 77));
}

#[test]
fn default_quota_is_full() {
    let quota = RateLimit::default(360, Period::Hour);
    assert_eq!(numbers(&quota), (360, Period::Hour, 360, 0));
}

#[test]
fn published_get_quotas() {
    let limits = RateLimits::default();
    let expected: [(&str, i32, Period); 9] = [
        ("/game/room-terrain", 360, Period::Hour),
        ("/user/code", 60, Period::Hour),
        ("/user/memory", 1440, Period::Day),
        ("/user/memory-segment", 360, Period::Hour),
        ("/game/market/orders-index", 60, Period::Hour),
        ("/game/market/orders", 60, Period::Hour),
        ("/game/market/my-orders", 60, Period::Hour),
        ("/game/market/stats", 60, Period::Hour),
        ("/game/user/money-history", 60, Period::Hour),
    ];
    assert_eq!(limits.get_limits.len(), 9);
    for (path, limit, period) in expected {
        let quota = limits.get_limit(&Method::Get, path);
        assert_eq!(numbers(&quota), (limit, period, limit, 0));
    }
}

#[test]
fn published_post_quotas() {
    let limits = RateLimits::default();
    let expected: [(&str, i32, Period); 6] = [
        ("/user/console", 360, Period::Hour),
        ("/game/map-stats", 60, Period::Hour),
        ("/user/code", 240, Period::Day),
        ("/user/set-active-branch", 240, Period::Day),
        ("/user/memory", 240, Period::Day),
        ("/user/memory-segment", 60, Period::Hour),
    ];
    assert_eq!(limits.post_limits.len(), 6);
    for (path, limit, period) in expected {
        let quota = limits.get_limit(&Method::Post, path);
        assert_eq!(numbers(&quota), (limit, period, limit, 0));
    }
}

#[test]
fn unseeded_path_gets_fallback() {
    let limits = RateLimits::default();
    assert_eq!(numbers(&limits.get_limit(&Method::Get, "/auth/me")), (120, Period::Minute, 120, 0));
    assert_eq!(
        numbers(&limits.get_limit(&Method::Post, "/auth/signin")),
        (120, Period::Minute, 120, 0)
    );
}

#[test]
fn tables_are_kept_apart_by_method() {
    let limits = RateLimits::default();
    assert_eq!(limits.get_limit(&Method::Post, "/game/room-terrain").limit, 120);
    assert_eq!(limits.get_limit(&Method::Get, "/user/console").limit, 120);
    assert_eq!(limits.get_limit(&Method::Get, "/user/code").limit, 60);
    assert_eq!(limits.get_limit(&Method::Post, "/user/code").limit, 240);
}

#[test]
fn paths_are_compared_letter_for_letter() {
    let limits = RateLimits::default();
    assert_eq!(limits.get_limit(&Method::Get, "/game/room-terrain?encoded=true").limit, 120);
    assert_eq!(limits.get_limit(&Method::Get, "/game/room-terrain/").limit, 120);
    assert_eq!(limits.get_limit(&Method::Get, "/Game/room-terrain").limit, 120);
    assert_eq!(limits.get_limit(&Method::Get, "/game").limit, 120);
}

#[test]
fn update_replaces_entry_wholesale() {
    let mut limits = RateLimits::default();
    let headers = quota_headers("100", "42", "1700000000");
    limits.update_from_headers(&Method::Get, "/game/room-terrain", &headers);
    let quota = limits.get_limit(&Method::Get, "/game/room-terrain");
    assert_eq!(numbers(&quota), (100, Period::Hour, 42, 1_700_000_000));
    assert_eq!(limits.global_limit.limit, 120);
    assert_eq!(limits.get_limit(&Method::Get, "/user/code").limit, 60);
    assert_eq!(limits.get_limits.len(), 9);
}

#[test]
fn update_without_entry_overwrites_fallback() {
    let mut limits = RateLimits::default();
    let headers = quota_headers("60", "59", "1700000001");
    limits.update_from_headers(&Method::Get, "/auth/me", &headers);
    assert_eq!(numbers(&limits.global_limit), (60, Period::Minute, 59, 1_700_000_001));
    assert_eq!(limits.get_limits.len(), 9);
    assert_eq!(limits.post_limits.len(), 6);
    assert_eq!(limits.get_limit(&Method::Post, "/anything").limit, 60);
    assert_eq!(limits.get_limit(&Method::Get, "/game/room-terrain").limit, 360);
}

#[test]
fn update_with_missing_remaining_and_reset_takes_zero() {
    let mut limits = RateLimits::default();
    let mut headers = HeaderMap::new();
    headers.insert("x-ratelimit-limit", HeaderValue::from_static("7"));
    limits.update_from_headers(&Method::Post, "/user/code", &headers);
    let quota = limits.get_limit(&Method::Post, "/user/code");
    assert_eq!(numbers(&quota), (7, Period::Day, 0, 0));
}

#[test]
fn update_with_zero_limit_changes_nothing() {
    let mut limits = RateLimits::default();
    let headers = quota_headers("0", "5", "1700000000");
    limits.update_from_headers(&Method::Get, "/game/room-terrain", &headers);
    limits.update_from_headers(&Method::Get, "/auth/me", &headers);
    assert_eq!(
        numbers(&limits.get_limit(&Method::Get, "/game/room-terrain")),
        (360, Period::Hour, 360, 0)
    );
    assert_eq!(numbers(&limits.global_limit), (120, Period::Minute, 120, 0));
}

#[test]
fn update_with_negative_limit_changes_nothing() {
    let mut limits = RateLimits::default();
    let headers = quota_headers("-3", "5", "1700000000");
    limits.update_from_headers(&Method::Get, "/game/room-terrain", &headers);
    assert_eq!(
        numbers(&limits.get_limit(&Method::Get, "/game/room-terrain")),
        (360, Period::Hour, 360, 0)
    );
}

#[test]
fn update_without_limit_header_changes_nothing() {
    let mut limits = RateLimits::default();
    let mut headers = HeaderMap::new();
    headers.insert("x-ratelimit-remaining", HeaderValue::from_static("1"));
    headers.insert("x-ratelimit-reset", HeaderValue::from_static("1700000000"));
    limits.update_from_headers(&Method::Get, "/game/room-terrain", &headers);
    limits.update_from_headers(&Method::Get, "/game/room-terrain", &HeaderMap::new());
    assert_eq!(
        numbers(&limits.get_limit(&Method::Get, "/game/room-terrain")),
        (360, Period::Hour, 360, 0)
    );
}

#[test]
fn update_with_unreadable_limit_changes_nothing() {
    let mut limits = RateLimits::default();
    for limit in ["", "abc", "12x", " 12", "1.5", "99999999999", "+", "-"] {
        let mut headers = HeaderMap::new();
        headers.insert("x-ratelimit-limit", HeaderValue::from_str(limit).unwrap());
        headers.insert("x-ratelimit-remaining", HeaderValue::from_static("1"));
        limits.update_from_headers(&Method::Get, "/game/room-terrain", &headers);
    }
    let mut headers = HeaderMap::new();
    headers.insert("x-ratelimit-limit", HeaderValue::from_bytes(&[0x31, 0xff]).unwrap());
    limits.update_from_headers(&Method::Get, "/game/room-terrain", &headers);
    assert_eq!(
        numbers(&limits.get_limit(&Method::Get, "/game/room-terrain")),
        (360, Period::Hour, 360, 0)
    );
}

#[test]
fn update_with_unreadable_remaining_and_reset_takes_zero() {
    let mut limits = RateLimits::default();
    let headers = quota_headers("50", "many", "-1");
    limits.update_from_headers(&Method::Get, "/game/room-terrain", &headers);
    assert_eq!(
        numbers(&limits.get_limit(&Method::Get, "/game/room-terrain")),
        (50, Period::Hour, 0, 0)
    );
}

#[test]
fn update_reads_signs_and_leading_zeros() {
    let mut limits = RateLimits::default();
    let headers = quota_headers("+0050", "-2", "+0017");
    limits.update_from_headers(&Method::Get, "/game/room-terrain", &headers);
    assert_eq!(
        numbers(&limits.get_limit(&Method::Get, "/game/room-terrain")),
        (50, Period::Hour, -2, 17)
    );
}

#[test]
fn header_names_are_matched_without_case() {
    let mut limits = RateLimits::default();
    let mut headers = HeaderMap::new();
    headers.insert("X-RateLimit-Limit", HeaderValue::from_static("11"));
    headers.insert("X-RATELIMIT-REMAINING", HeaderValue::from_static("10"));
    headers.insert("x-ratelimit-reset", HeaderValue::from_static("9"));
    limits.update_from_headers(&Method::Get, "/user/code", &headers);
    assert_eq!(numbers(&limits.get_limit(&Method::Get, "/user/code")), (11, Period::Hour, 10, 9));
}

#[test]
fn first_of_several_limit_values_counts() {
    let mut limits = RateLimits::default();
    let mut headers = HeaderMap::new();
    headers.append("x-ratelimit-limit", HeaderValue::from_static("5"));
    headers.append("x-ratelimit-limit", HeaderValue::from_static("6"));
    limits.update_from_headers(&Method::Get, "/user/code", &headers);
    assert_eq!(limits.get_limit(&Method::Get, "/user/code").limit, 5);
}

#[test]
fn update_limit_overwrites_governing_quota() {
    let mut limits = RateLimits::default();
    limits.update_limit(&Method::Post, "/user/console", RateLimit::new(1, Period::Day, 1, 5));
    assert_eq!(numbers(&limits.get_limit(&Method::Post, "/user/console")), (1, Period::Day, 1, 5));
    assert_eq!(limits.global_limit.limit, 120);
    limits.update_limit(&Method::Post, "/unknown", RateLimit::new(2, Period::Hour, 0, 6));
    assert_eq!(numbers(&limits.global_limit), (2, Period::Hour, 0, 6));
    assert_eq!(limits.post_limits.len(), 6);
    assert_eq!(limits.get_limit(&Method::Post, "/user/console").limit, 1);
}

#[test]
fn wait_until_reset_when_used_up() {
    let reset: u128 = 1_700_000_000;
    let mut limits = RateLimits::default();
    limits.global_limit = RateLimit::new(120, Period::Minute, 0, reset);
    let now = reset * 1000 - 5000;
    assert_eq!(limits.wait_if_needed(&Method::Get, "/auth/me", now), 5000);
    assert_eq!(limits.wait_if_needed(&Method::Post, "/auth/signin", now), 5000);
    assert_eq!(limits.wait_if_needed(&Method::Get, "/game/room-terrain", now), 0);
}

#[test]
fn no_wait_while_requests_remain() {
    let quota = RateLimit::new(120, Period::Minute, 1, 1_700_000_000);
    assert_eq!(quota.wait_millis(0), 0);
    assert_eq!(quota.wait_millis(1_699_999_999_999), 0);
}

#[test]
fn no_wait_once_reset_has_passed() {
    let quota = RateLimit::new(120, Period::Minute, 0, 1_700_000_000);
    assert_eq!(quota.wait_millis(1_700_000_000_000), 0);
    assert_eq!(quota.wait_millis(1_700_000_000_001), 0);
    assert_eq!(quota.wait_millis(u128::MAX), 0);
    assert_eq!(quota.wait_millis(1_699_999_999_999), 1);
}

#[test]
fn negative_remaining_waits_too() {
    let quota = RateLimit::new(120, Period::Minute, -4, 10);
    assert_eq!(quota.wait_millis(1), 9999);
    assert_eq!(quota.wait_millis(0), 10000);
}

#[test]
fn wait_is_exact_up_to_the_largest_number() {
    let quota = RateLimit::new(1, Period::Day, 0, u128::MAX / 1000 + 1);
    let excess = 1000 - u128::MAX % 1000;
    assert_eq!(excess, 545);
    assert_eq!(quota.wait_millis(excess), u128::MAX);
    assert_eq!(quota.wait_millis(excess + 1), u128::MAX - 1);
    assert_eq!(quota.wait_millis(excess - 1), u128::MAX);
    assert_eq!(quota.wait_millis(0), u128::MAX);
    assert_eq!(quota.wait_millis(2000), u128::MAX - 1455);
    let far = RateLimit::new(1, Period::Day, 0, u128::MAX);
    assert_eq!(far.wait_millis(u128::MAX), u128::MAX);
}

#[test]
fn wait_leaves_registry_alone() {
    let mut limits = RateLimits::default();
    limits.global_limit = RateLimit::new(120, Period::Minute, 0, 100);
    let _ = limits.wait_if_needed(&Method::Get, "/auth/me", 0);
    assert_eq!(numbers(&limits.global_limit), (120, Period::Minute, 0, 100));
}
