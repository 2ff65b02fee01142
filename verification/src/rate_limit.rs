use crate::headers::{
    header_fields, header_i32, header_u128, lower_name, spec_header_i32, spec_header_u128,
};
use crate::http_client::Method;
use reqwest::header::HeaderMap;
use vstd::hash_map::StringHashMap;
use vstd::prelude::*;
use vstd::string::*;

verus! {

/// The rolling window over which a quota is counted.
#[derive(Debug, Clone, Copy, PartialEq, Eq, Structural)]
pub enum Period {
    Minute,
    Hour,
    Day,
}

/// The quota of one endpoint, as last heard from the server.
#[derive(Debug, Clone, Copy)]
pub struct RateLimit {
    /// Requests allowed per period.
    pub limit: i32,
    /// The window that `limit` is counted over.
    pub period: Period,
    /// Requests left in the current window.
    pub remaining: i32,
    /// When the window ends, in seconds since the epoch.
    pub reset: u128,
}

impl RateLimit {
    /// A quota never holds more requests than its limit allows.
    pub open spec fn within_limit(self) -> bool {
        self.remaining <= self.limit
    }

    /// The wait, in milliseconds, that this quota asks for at `now_millis`:
    /// the time until the window ends where nothing remains, else none.
    pub open spec fn spec_wait(self, now_millis: int) -> int {
        if self.remaining <= 0 && self.reset * 1000 > now_millis {
            self.reset * 1000 - now_millis
        } else {
            0
        }
    }

    /// This quota with the three numbers that a response reports in place of
    /// its own; the period stays.
    pub open spec fn spec_reported(self, limit: i32, remaining: i32, reset: u128) -> RateLimit {
        RateLimit { limit, period: self.period, remaining, reset }
    }

    pub fn new(limit: i32, period: Period, remaining: i32, reset: u128) -> (quota: Self)
        ensures
            quota == (RateLimit { limit, period, remaining, reset }),
    {
        Self { limit, period, remaining, reset }
    }

    /// A full quota whose window has not been heard of yet.
    pub fn default(limit: i32, period: Period) -> (quota: Self)
        ensures
            quota == (RateLimit { limit, period, remaining: limit, reset: 0 }),
            quota.within_limit(),
    {
        Self::new(limit, period, limit, 0)
    }

    /// The wait that this quota asks for at `now_millis`, in milliseconds. A
    /// wait beyond `u128::MAX` is given as `u128::MAX`.
    pub fn wait_millis(&self, now_millis: u128) -> (wait: u128)
        ensures
            self.spec_wait(now_millis as int) <= u128::MAX ==> wait == self.spec_wait(
                now_millis as int,
            ),
            self.spec_wait(now_millis as int) > u128::MAX ==> wait == u128::MAX,
    {
        if self.remaining > 0 {
            return 0;
        }
        let whole: u128 = now_millis / 1000;
        let part: u128 = now_millis % 1000;
        if self.reset <= whole {
            return 0;
        }
        let ahead: u128 = self.reset - whole;
        if part == 0 {
            match ahead.checked_mul(1000) {
                Some(wait) => wait,
                None => u128::MAX,
            }
        } else {
            match (ahead - 1).checked_mul(1000) {
                Some(most) => match most.checked_add(1000 - part) {
                    Some(wait) => wait,
                    None => u128::MAX,
                },
                None => u128::MAX,
            }
        }
    }
}

/// What a registry holds: the fallback quota and the quotas filed under the
/// paths of each method.
pub struct RateLimitsView {
    pub global_limit: RateLimit,
    pub get_limits: Map<Seq<char>, RateLimit>,
    pub post_limits: Map<Seq<char>, RateLimit>,
}

impl RateLimitsView {
    /// The table of one method.
    pub open spec fn table(self, method: Method) -> Map<Seq<char>, RateLimit> {
        match method {
            Method::Get => self.get_limits,
            Method::Post => self.post_limits,
        }
    }

    /// Whether `path` has a quota of its own under `method`.
    pub open spec fn has_entry(self, method: Method, path: Seq<char>) -> bool {
        self.table(method).contains_key(path)
    }

    /// The quota that governs `path` under `method`: its own where it has one,
    /// else the fallback. Paths are compared letter for letter.
    pub open spec fn lookup(self, method: Method, path: Seq<char>) -> RateLimit {
        if self.has_entry(method, path) {
            self.table(method)[path]
        } else {
            self.global_limit
        }
    }

    /// The registry after the quota that governs `path` has been overwritten
    /// with `quota`. No entry is made or removed: a path without an entry of
    /// its own overwrites the fallback.
    pub open spec fn replace(self, method: Method, path: Seq<char>, quota: RateLimit) -> Self {
        if !self.has_entry(method, path) {
            RateLimitsView { global_limit: quota, ..self }
        } else {
            match method {
                Method::Get => RateLimitsView {
                    get_limits: self.get_limits.insert(path, quota),
                    ..self
                },
                Method::Post => RateLimitsView {
                    post_limits: self.post_limits.insert(path, quota),
                    ..self
                },
            }
        }
    }

    /// The registry after a response with the header fields `fields` to a
    /// request for `path`. A reported limit above zero overwrites the governing
    /// quota's three numbers; anything else leaves the registry as it is.
    pub open spec fn absorb(
        self,
        method: Method,
        path: Seq<char>,
        fields: Map<Seq<char>, Seq<u8>>,
    ) -> Self {
        let limit = spec_header_i32(fields, "x-ratelimit-limit"@);
        if limit <= 0 {
            self
        } else {
            self.replace(
                method,
                path,
                self.lookup(method, path).spec_reported(
                    limit,
                    spec_header_i32(fields, "x-ratelimit-remaining"@),
                    spec_header_u128(fields, "x-ratelimit-reset"@),
                ),
            )
        }
    }

    /// Whether every quota in the registry is within its limit.
    pub open spec fn within_limits(self) -> bool {
        &&& self.global_limit.within_limit()
        &&& forall|path: Seq<char>| #[trigger]
            self.get_limits.contains_key(path) ==> self.get_limits[path].within_limit()
        &&& forall|path: Seq<char>| #[trigger]
            self.post_limits.contains_key(path) ==> self.post_limits[path].within_limit()
    }
}

/// The quotas of every endpoint: a fallback and, per method, those of the
/// paths known to be stricter.
pub struct RateLimits {
    /// The quota of every path that has none of its own.
    pub global_limit: RateLimit,
    /// Quotas of `GET` paths.
    pub get_limits: StringHashMap<RateLimit>,
    /// Quotas of `POST` paths.
    pub post_limits: StringHashMap<RateLimit>,
}

impl View for RateLimits {
    type V = RateLimitsView;

    open spec fn view(&self) -> RateLimitsView {
        RateLimitsView {
            global_limit: self.global_limit,
            get_limits: self.get_limits@,
            post_limits: self.post_limits@,
        }
    }
}

/// A full hourly quota.
pub open spec fn hourly(limit: i32) -> RateLimit {
    RateLimit { limit, period: Period::Hour, remaining: limit, reset: 0 }
}

/// A full daily quota.
pub open spec fn daily(limit: i32) -> RateLimit {
    RateLimit { limit, period: Period::Day, remaining: limit, reset: 0 }
}

/// The quotas that the server publishes for `GET` paths.
pub open spec fn published_get_limits() -> Map<Seq<char>, RateLimit> {
    Map::empty()
        .insert("/game/room-terrain"@, hourly(360))
        .insert("/user/code"@, hourly(60))
        .insert("/user/memory"@, daily(1440))
        .insert("/user/memory-segment"@, hourly(360))
        .insert("/game/market/orders-index"@, hourly(60))
        .insert("/game/market/orders"@, hourly(60))
        .insert("/game/market/my-orders"@, hourly(60))
        .insert("/game/market/stats"@, hourly(60))
        .insert("/game/user/money-history"@, hourly(60))
}

/// The quotas that the server publishes for `POST` paths.
pub open spec fn published_post_limits() -> Map<Seq<char>, RateLimit> {
    Map::empty()
        .insert("/user/console"@, hourly(360))
        .insert("/game/map-stats"@, hourly(60))
        .insert("/user/code"@, daily(240))
        .insert("/user/set-active-branch"@, daily(240))
        .insert("/user/memory"@, daily(240))
        .insert("/user/memory-segment"@, hourly(60))
}

/// The registry that a new client starts with: 120 requests a minute for
/// everything, and the published stricter quotas.
pub open spec fn published_limits() -> RateLimitsView {
    RateLimitsView {
        global_limit: RateLimit { limit: 120, period: Period::Minute, remaining: 120, reset: 0 },
        get_limits: published_get_limits(),
        post_limits: published_post_limits(),
    }
}

/// The three field names are written in lower case already.
pub proof fn lemma_quota_field_names()
    ensures
        lower_name("x-ratelimit-limit"@) == "x-ratelimit-limit"@,
        lower_name("x-ratelimit-remaining"@) == "x-ratelimit-remaining"@,
        lower_name("x-ratelimit-reset"@) == "x-ratelimit-reset"@,
{
    reveal_strlit("x-ratelimit-limit");
    reveal_strlit("x-ratelimit-remaining");
    reveal_strlit("x-ratelimit-reset");
    assert(lower_name("x-ratelimit-limit"@) =~= "x-ratelimit-limit"@);
    assert(lower_name("x-ratelimit-remaining"@) =~= "x-ratelimit-remaining"@);
    assert(lower_name("x-ratelimit-reset"@) =~= "x-ratelimit-reset"@);
}

impl RateLimits {
    /// Looks up the quota that governs `path` under `method`: its own where it
    /// has one, else the fallback.
    pub fn get_limit(&self, method: &Method, path: &str) -> (quota: RateLimit)
        ensures
            quota == self@.lookup(*method, path@),
    {
        let found = match method {
            Method::Get => self.get_limits.get(path),
            Method::Post => self.post_limits.get(path),
        };
        match found {
            Some(quota) => *quota,
            None => self.global_limit,
        }
    }

    /// Overwrites the quota that governs `path` under `method`.
    pub fn update_limit(&mut self, method: &Method, path: &str, rate_limit: RateLimit)
        ensures
            final(self)@ == old(self)@.replace(*method, path@, rate_limit),
    {
        match method {
            Method::Get => {
                if self.get_limits.contains_key(path) {
                    self.get_limits.insert(String::from_str(path), rate_limit);
                } else {
                    self.global_limit = rate_limit;
                }
            },
            Method::Post => {
                if self.post_limits.contains_key(path) {
                    self.post_limits.insert(String::from_str(path), rate_limit);
                } else {
                    self.global_limit = rate_limit;
                }
            },
        }
    }

    /// Takes over what the headers of a response to `path` report of its quota.
    pub fn update_from_headers(&mut self, method: &Method, path: &str, headers: &HeaderMap)
        ensures
            final(self)@ == old(self)@.absorb(*method, path@, header_fields(*headers)),
    {
        proof {
            lemma_quota_field_names();
        }
        let limit: i32 = header_i32(headers, "x-ratelimit-limit");
        if limit <= 0 {
            return;
        }
        let remaining: i32 = header_i32(headers, "x-ratelimit-remaining");
        let reset: u128 = header_u128(headers, "x-ratelimit-reset");
        let mut quota = self.get_limit(method, path);
        quota.limit = limit;
        quota.remaining = remaining;
        quota.reset = reset;
        self.update_limit(method, path, quota);
    }

    /// How long to hold a request for `path` back at `now_millis`, in
    /// milliseconds: until the window of its governing quota ends where that
    /// quota is used up, else not at all. The registry is left as it is.
    pub fn wait_if_needed(&self, method: &Method, path: &str, now_millis: u128) -> (wait: u128)
        ensures
            self@.lookup(*method, path@).spec_wait(now_millis as int) <= u128::MAX ==> wait
                == self@.lookup(*method, path@).spec_wait(now_millis as int),
            self@.lookup(*method, path@).spec_wait(now_millis as int) > u128::MAX ==> wait
                == u128::MAX,
    {
        self.get_limit(method, path).wait_millis(now_millis)
    }
}

impl Default for RateLimits {
    /// The published quotas, all of them full.
    fn default() -> (limits: Self)
        ensures
            limits@ == published_limits(),
    {
        let global_limit = RateLimit::default(120, Period::Minute);
        let mut get_limits = StringHashMap::new();
        let mut post_limits = StringHashMap::new();

        get_limits.insert(
            String::from_str("/game/room-terrain"),
            RateLimit::default(360, Period::Hour),
        );
        get_limits.insert(String::from_str("/user/code"), RateLimit::default(60, Period::Hour));
        get_limits.insert(String::from_str("/user/memory"), RateLimit::default(1440, Period::Day));
        get_limits.insert(
            String::from_str("/user/memory-segment"),
            RateLimit::default(360, Period::Hour),
        );
        get_limits.insert(
            String::from_str("/game/market/orders-index"),
            RateLimit::default(60, Period::Hour),
        );
        get_limits.insert(
            String::from_str("/game/market/orders"),
            RateLimit::default(60, Period::Hour),
        );
        get_limits.insert(
            String::from_str("/game/market/my-orders"),
            RateLimit::default(60, Period::Hour),
        );
        get_limits.insert(
            String::from_str("/game/market/stats"),
            RateLimit::default(60, Period::Hour),
        );
        get_limits.insert(
            String::from_str("/game/user/money-history"),
            RateLimit::default(60, Period::Hour),
        );

        post_limits.insert(String::from_str("/user/console"), RateLimit::default(360, Period::Hour));
        post_limits.insert(
            String::from_str("/game/map-stats"),
            RateLimit::default(60, Period::Hour),
        );
        post_limits.insert(String::from_str("/user/code"), RateLimit::default(240, Period::Day));
        post_limits.insert(
            String::from_str("/user/set-active-branch"),
            RateLimit::default(240, Period::Day),
        );
        post_limits.insert(String::from_str("/user/memory"), RateLimit::default(240, Period::Day));
        post_limits.insert(
            String::from_str("/user/memory-segment"),
            RateLimit::default(60, Period::Hour),
        );

        Self { global_limit, get_limits, post_limits }
    }
}

/// A path without an entry of its own is governed by the fallback, and no
/// response makes it an entry: after any response it still follows the
/// fallback as it then stands.
pub proof fn lemma_unseeded_path_follows_fallback(
    limits: RateLimitsView,
    method: Method,
    path: Seq<char>,
    asked_method: Method,
    asked_path: Seq<char>,
    fields: Map<Seq<char>, Seq<u8>>,
)
    requires
        !limits.has_entry(method, path),
    ensures
        limits.lookup(method, path) == limits.global_limit,
        !limits.absorb(asked_method, asked_path, fields).has_entry(method, path),
        limits.absorb(asked_method, asked_path, fields).lookup(method, path) == limits.absorb(
            asked_method,
            asked_path,
            fields,
        ).global_limit,
{
}

/// After a response that reports a limit above zero, the quota that governs
/// the path holds exactly the three reported numbers and its old period. No
/// entry is made or removed, and a path with an entry of its own leaves the
/// fallback alone.
pub proof fn lemma_update_replaces_wholesale(
    limits: RateLimitsView,
    method: Method,
    path: Seq<char>,
    fields: Map<Seq<char>, Seq<u8>>,
)
    requires
        spec_header_i32(fields, "x-ratelimit-limit"@) > 0,
    ensures
        limits.absorb(method, path, fields).lookup(method, path) == (RateLimit {
            limit: spec_header_i32(fields, "x-ratelimit-limit"@),
            period: limits.lookup(method, path).period,
            remaining: spec_header_i32(fields, "x-ratelimit-remaining"@),
            reset: spec_header_u128(fields, "x-ratelimit-reset"@),
        }),
        limits.absorb(method, path, fields).get_limits.dom() == limits.get_limits.dom(),
        limits.absorb(method, path, fields).post_limits.dom() == limits.post_limits.dom(),
        limits.has_entry(method, path) ==> limits.absorb(method, path, fields).global_limit
            == limits.global_limit,
{
    let after = limits.absorb(method, path, fields);
    assert(after.get_limits.dom() =~= limits.get_limits.dom());
    assert(after.post_limits.dom() =~= limits.post_limits.dom());
}

/// A response touches no quota but the one that governs its path: every
/// entry of another path, or of the other method, stays as it was.
pub proof fn lemma_update_leaves_other_entries(
    limits: RateLimitsView,
    method: Method,
    path: Seq<char>,
    fields: Map<Seq<char>, Seq<u8>>,
    other_method: Method,
    other_path: Seq<char>,
)
    requires
        limits.has_entry(other_method, other_path),
        other_method != method || other_path != path,
    ensures
        limits.absorb(method, path, fields).lookup(other_method, other_path) == limits.lookup(
            other_method,
            other_path,
        ),
{
}

/// A response whose limit field is missing, unreadable or not above zero
/// changes nothing, however often it comes.
pub proof fn lemma_update_without_limit_changes_nothing(
    limits: RateLimitsView,
    method: Method,
    path: Seq<char>,
    fields: Map<Seq<char>, Seq<u8>>,
)
    requires
        !fields.contains_key("x-ratelimit-limit"@) || spec_header_i32(
            fields,
            "x-ratelimit-limit"@,
        ) <= 0,
    ensures
        limits.absorb(method, path, fields) == limits,
        limits.absorb(method, path, fields).absorb(method, path, fields) == limits,
{
}

/// A quota with requests left asks for no wait; a used-up one asks for the
/// time until its window ends, and for none once that has passed.
pub proof fn lemma_wait(quota: RateLimit, now_millis: int)
    ensures
        quota.remaining > 0 ==> quota.spec_wait(now_millis) == 0,
        quota.remaining <= 0 && quota.reset * 1000 > now_millis ==> quota.spec_wait(now_millis)
            == quota.reset * 1000 - now_millis,
        quota.remaining <= 0 && quota.reset * 1000 <= now_millis ==> quota.spec_wait(now_millis)
            == 0,
        quota.spec_wait(now_millis) >= 0,
{
}

/// The published quotas are all within their limits, and a response that
/// reports no more requests left than its limit allows keeps them so.
pub proof fn lemma_within_limits_kept(
    limits: RateLimitsView,
    method: Method,
    path: Seq<char>,
    fields: Map<Seq<char>, Seq<u8>>,
)
    requires
        limits.within_limits(),
        spec_header_i32(fields, "x-ratelimit-remaining"@) <= spec_header_i32(
            fields,
            "x-ratelimit-limit"@,
        ),
    ensures
        published_limits().within_limits(),
        limits.absorb(method, path, fields).within_limits(),
{
}

} // verus!
