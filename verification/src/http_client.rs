use crate::config::ScreepsConfig;
use crate::error::ScreepsError;
use crate::headers::{
    bytes_as_chars, header_fields, header_text, header_value_from_str, insert_header,
    is_plain_name, is_value_byte, is_value_text, is_visible_text, lower_name, new_header_map,
    no_fields, spec_header_text,
};
use crate::rate_limit::{published_limits, RateLimits};
use reqwest::header::HeaderMap;
use vstd::prelude::*;
use vstd::string::*;
use vstd::utf8::*;

verus! {

/// The two request methods that the server is asked with.
#[derive(Debug, Clone, Copy, PartialEq, Eq, Structural)]
pub enum Method {
    Get,
    Post,
}

/// How the parameters of a request travel.
#[derive(Debug, Clone, Copy, PartialEq, Eq, Structural)]
pub enum Encoding {
    /// In the query string of the address.
    Query,
    /// As a JSON body.
    Json,
}

impl Method {
    /// The method alone decides how parameters travel, whatever they are:
    /// `GET` puts them in the query string, `POST` in a JSON body.
    pub open spec fn spec_encoding(self) -> Encoding {
        match self {
            Method::Get => Encoding::Query,
            Method::Post => Encoding::Json,
        }
    }

    /// How a request with this method carries its parameters.
    pub fn encoding(&self) -> (encoding: Encoding)
        ensures
            encoding == self.spec_encoding(),
    {
        match self {
            Method::Get => Encoding::Query,
            Method::Post => Encoding::Json,
        }
    }
}

/// Whether `token` can be sent as a header value: its UTF-8 bytes hold no
/// control character but tab.
pub open spec fn is_sendable(token: Seq<char>) -> bool {
    is_value_text(encode_utf8(token))
}

/// The header fields that authenticate a request: the token under both
/// `x-token` and `x-username`, or nothing where there is no token.
pub open spec fn spec_auth_fields(token: Option<Seq<char>>) -> Map<Seq<char>, Seq<u8>> {
    match token {
        Some(t) => no_fields().insert("x-token"@, encode_utf8(t)).insert(
            "x-username"@,
            encode_utf8(t),
        ),
        None => no_fields(),
    }
}

/// The token after a response with the header fields `fields`: the text of
/// its `x-token` field where it has a printable one, else the token as it was.
pub open spec fn spec_token_after(token: Option<Seq<char>>, fields: Map<Seq<char>, Seq<u8>>)
    -> Option<Seq<char>> {
    match spec_header_text(fields, "x-token"@) {
        Some(t) => Some(t),
        None => token,
    }
}

/// Printable bytes, read as text and encoded again, are the same bytes.
pub proof fn lemma_visible_text_round_trip(bytes: Seq<u8>)
    requires
        is_visible_text(bytes),
    ensures
        encode_utf8(bytes_as_chars(bytes)) == bytes,
        is_sendable(bytes_as_chars(bytes)),
{
    let chars = bytes_as_chars(bytes);
    assert(is_ascii_chars(chars)) by {
        assert forall|i: int| 0 <= i < chars.len() implies '\0' <= #[trigger] chars[i]
            <= '\u{7f}' by {
            assert(bytes[i] < 127 || bytes[i] == 9);
        }
    }
    is_ascii_chars_encode_utf8(chars);
    assert forall|i: int| 0 <= i < bytes.len() implies encode_utf8(chars)[i] == bytes[i] by {
        assert(chars[i] as u8 == encode_utf8(chars)[i]);
        assert(bytes[i] as char as u8 == bytes[i]);
    }
    assert(encode_utf8(chars) =~= bytes);
    assert forall|i: int| 0 <= i < bytes.len() implies is_value_byte(#[trigger] bytes[i]) by {
        assert(bytes[i] < 127 || bytes[i] == 9);
    }
}

/// The names of the two authentication fields, as the server and the map
/// spell them.
pub proof fn lemma_auth_field_names()
    ensures
        is_plain_name("X-Token"@),
        is_plain_name("X-Username"@),
        lower_name("X-Token"@) == "x-token"@,
        lower_name("X-Username"@) == "x-username"@,
        lower_name("x-token"@) == "x-token"@,
        "x-token"@ != "x-username"@,
{
    reveal_strlit("X-Token");
    reveal_strlit("X-Username");
    reveal_strlit("x-token");
    reveal_strlit("x-username");
    assert(lower_name("X-Token"@) =~= "x-token"@);
    assert(lower_name("X-Username"@) =~= "x-username"@);
    assert(lower_name("x-token"@) =~= "x-token"@);
}

/// The session token of one client: a single slot that the last writer wins.
#[derive(Debug)]
pub struct TokenHolder {
    pub token: Option<String>,
}

impl View for TokenHolder {
    type V = Option<Seq<char>>;

    open spec fn view(&self) -> Option<Seq<char>> {
        match self.token {
            Some(t) => Some(t@),
            None => None,
        }
    }
}

impl TokenHolder {
    /// Whether the token, if there is one, can be sent as a header value.
    pub open spec fn spec_is_sendable(&self) -> bool {
        match self@ {
            Some(t) => is_sendable(t),
            None => true,
        }
    }

    pub fn new(token: Option<String>) -> (holder: Self)
        ensures
            holder.token == token,
    {
        Self { token }
    }

    /// The token as it stands.
    pub fn get(&self) -> (token: Option<String>)
        ensures
            token == self.token,
    {
        match &self.token {
            Some(t) => Some(t.clone()),
            None => None,
        }
    }

    /// Overwrites the token, whatever it was.
    pub fn set(&mut self, token: String)
        ensures
            final(self).token == Some(token),
    {
        self.token = Some(token);
    }

    /// Tests whether the token, if there is one, can be sent as a header
    /// value.
    pub fn is_sendable(&self) -> (ok: bool)
        ensures
            ok == self.spec_is_sendable(),
    {
        match &self.token {
            None => true,
            Some(t) => {
                let bytes = t.as_str().as_bytes();
                let n: usize = bytes.len();
                let mut i: usize = 0;
                while i < n
                    invariant
                        i <= n,
                        n == bytes@.len(),
                        bytes@ == encode_utf8(t@),
                        self.token == Some(*t),
                        forall|k: int| 0 <= k < i ==> is_value_byte(#[trigger] bytes@[k]),
                    decreases n - i,
                {
                    let b: u8 = bytes[i];
                    if !((32 <= b && b != 127) || b == 9) {
                        assert(!is_value_byte(encode_utf8(t@)[i as int]));
                        return false;
                    }
                    i = i + 1;
                }
                true
            },
        }
    }

    /// Builds the header fields that authenticate a request.
    pub fn build_headers(&self) -> (headers: HeaderMap)
        requires
            self.spec_is_sendable(),
        ensures
            header_fields(headers) == spec_auth_fields(self@),
    {
        let mut headers = new_header_map();
        if let Some(token) = &self.token {
            proof {
                lemma_auth_field_names();
            }
            if let Some(value) = header_value_from_str(token.as_str()) {
                insert_header(&mut headers, "X-Token", value);
            }
            if let Some(value) = header_value_from_str(token.as_str()) {
                insert_header(&mut headers, "X-Username", value);
            }
        }
        headers
    }

    /// Takes over the token that a response carries in its `x-token` field.
    /// A response without a printable one leaves the token as it is.
    pub fn update_from_headers(&mut self, headers: &HeaderMap)
        ensures
            final(self)@ == spec_token_after(old(self)@, header_fields(*headers)),
            old(self).spec_is_sendable() ==> final(self).spec_is_sendable(),
    {
        proof {
            lemma_auth_field_names();
        }
        if let Some(token) = header_text(headers, "x-token") {
            proof {
                lemma_visible_text_round_trip(header_fields(*headers)["x-token"@]);
            }
            self.token = Some(token);
        }
    }
}

/// What the client has worked out for one request before it is sent.
#[derive(Debug)]
pub struct PreparedRequest {
    /// The method to ask with.
    pub method: Method,
    /// How the parameters travel.
    pub encoding: Encoding,
    /// The full address.
    pub url: String,
    /// The header fields that authenticate the request.
    pub headers: HeaderMap,
    /// How long to hold the request back before sending, in milliseconds.
    pub wait_millis: u128,
}

/// The sign-in request, with the credentials that make up its body.
#[derive(Debug)]
pub struct SignIn {
    pub request: PreparedRequest,
    pub email: String,
    pub password: String,
}

/// The state of one client: its settings, the quotas it has heard of and the
/// token it holds. Sending and receiving are left to the caller, who asks
/// `request` what to send and hands the headers of each response to
/// `record_response`.
pub struct ScreepsHttpClient {
    /// The settings that the client was built with.
    pub config: ScreepsConfig,
    /// The quotas, as last heard from the server.
    pub rate_limits: RateLimits,
    /// The latest token.
    pub token: TokenHolder,
}

impl ScreepsHttpClient {
    /// Whether `plan` is what this client prepares at `now_millis` for a
    /// request of `path` with `method`.
    pub open spec fn spec_prepares(
        &self,
        plan: PreparedRequest,
        method: Method,
        path: Seq<char>,
        now_millis: int,
    ) -> bool {
        let wait = self.rate_limits@.lookup(method, path).spec_wait(now_millis);
        &&& plan.method == method
        &&& plan.encoding == method.spec_encoding()
        &&& plan.url@ == self.config.spec_url(path)
        &&& header_fields(plan.headers) == spec_auth_fields(self.token@)
        &&& plan.wait_millis == if wait <= u128::MAX {
            wait
        } else {
            u128::MAX as int
        }
    }

    /// A client that starts with the token of `config` and the published
    /// quotas.
    pub fn new(config: ScreepsConfig) -> (client: Self)
        ensures
            client.config == config,
            client.token.token == config.token,
            client.rate_limits@ == published_limits(),
    {
        let token = match &config.token {
            Some(t) => Some(t.clone()),
            None => None,
        };
        Self { token: TokenHolder::new(token), config, rate_limits: RateLimits::default() }
    }

    /// Joins the base address of the server and `path`.
    pub fn build_url(&self, path: &str) -> (url: String)
        ensures
            url@ == self.config.spec_url(path@),
    {
        self.config.build_url(path)
    }

    /// Builds the header fields that authenticate a request: the token under
    /// both names, where there is one.
    pub fn build_headers(&self) -> (headers: HeaderMap)
        requires
            self.token.spec_is_sendable(),
        ensures
            header_fields(headers) == spec_auth_fields(self.token@),
    {
        self.token.build_headers()
    }

    /// Prepares a request: its address, its authentication and the wait that
    /// the quota of `path` asks for at `now_millis`. Nothing is counted down:
    /// only a response changes a quota.
    pub fn request(&self, method: Method, path: &str, now_millis: u128) -> (plan: PreparedRequest)
        requires
            self.token.spec_is_sendable(),
        ensures
            self.spec_prepares(plan, method, path@, now_millis as int),
    {
        let url = self.build_url(path);
        let headers = self.build_headers();
        let wait_millis = self.rate_limits.wait_if_needed(&method, path, now_millis);
        PreparedRequest { method, encoding: method.encoding(), url, headers, wait_millis }
    }

    /// Takes over what the headers of a response to `path` say: a new token,
    /// where one is sent, and the quota of the path.
    pub fn record_response(&mut self, method: &Method, path: &str, headers: &HeaderMap)
        ensures
            final(self).config == old(self).config,
            final(self).token@ == spec_token_after(old(self).token@, header_fields(*headers)),
            final(self).rate_limits@ == old(self).rate_limits@.absorb(
                *method,
                path@,
                header_fields(*headers),
            ),
            old(self).token.spec_is_sendable() ==> final(self).token.spec_is_sendable(),
    {
        self.token.update_from_headers(headers);
        self.rate_limits.update_from_headers(method, path, headers);
    }

    /// Prepares the exchange of e-mail and password for a token. Without both
    /// of them nothing is prepared.
    pub fn auth(&self, now_millis: u128) -> (r: Result<SignIn, ScreepsError>)
        requires
            self.config.spec_has_credentials() ==> self.token.spec_is_sendable(),
        ensures
            self.config.spec_has_credentials() ==> (r matches Ok(sign_in) && Some(sign_in.email)
                == self.config.email && Some(sign_in.password) == self.config.password
                && self.spec_prepares(
                sign_in.request,
                Method::Post,
                "/auth/signin"@,
                now_millis as int,
            )),
            !self.config.spec_has_credentials() ==> (r matches Err(ScreepsError::Config(reason))
                && reason@ == "email or password is none"@),
    {
        match self.config.credentials() {
            Ok((email, password)) => {
                let request = self.request(Method::Post, "/auth/signin", now_millis);
                Ok(SignIn { request, email, password })
            },
            Err(error) => Err(error),
        }
    }
}

/// A token that a response sets is the token that the next request carries,
/// under both names, whatever token was held before.
pub proof fn lemma_token_read_after_write(
    token: Option<Seq<char>>,
    fields: Map<Seq<char>, Seq<u8>>,
)
    requires
        fields.contains_key("x-token"@),
        is_visible_text(fields["x-token"@]),
    ensures
        spec_token_after(token, fields) == Some(bytes_as_chars(fields["x-token"@])),
        is_sendable(spec_token_after(token, fields)->0),
        spec_auth_fields(spec_token_after(token, fields))["x-token"@] == fields["x-token"@],
        spec_auth_fields(spec_token_after(token, fields))["x-username"@] == fields["x-token"@],
{
    lemma_visible_text_round_trip(fields["x-token"@]);
    lemma_auth_field_names();
}

/// A response without a printable `x-token` field leaves the token alone.
pub proof fn lemma_token_kept_without_header(
    token: Option<Seq<char>>,
    fields: Map<Seq<char>, Seq<u8>>,
)
    requires
        !fields.contains_key("x-token"@) || !is_visible_text(fields["x-token"@]),
    ensures
        spec_token_after(token, fields) == token,
{
}

} // verus!
