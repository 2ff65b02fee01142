use crate::error::ScreepsError;
use vstd::prelude::*;
use vstd::string::*;

verus! {

/// Connection settings of one client. They are fixed once a client has been
/// built from them.
#[derive(Debug)]
pub struct ScreepsConfig {
    /// Session token to start with, if one is known.
    pub token: Option<String>,
    /// E-mail address of the account.
    pub email: Option<String>,
    /// Password of the account.
    pub password: Option<String>,
    /// Host of the game server: domain, and port where it is not the default.
    pub host: String,
    /// Whether to talk `https` rather than `http`.
    pub secure: bool,
    /// Time allowed for one request, in seconds.
    pub timeout: u64,
}

impl ScreepsConfig {
    /// The scheme that `secure` selects.
    pub open spec fn spec_scheme(secure: bool) -> Seq<char> {
        if secure {
            "https"@
        } else {
            "http"@
        }
    }

    /// The prefix shared by every endpoint: `scheme://host/api`.
    pub open spec fn spec_base_url(&self) -> Seq<char> {
        Self::spec_scheme(self.secure) + "://"@ + self.host@ + "/api"@
    }

    pub fn new(
        token: Option<String>,
        email: Option<String>,
        password: Option<String>,
        host: String,
        secure: bool,
        timeout: u64,
    ) -> (config: Self)
        ensures
            config.token == token,
            config.email == email,
            config.password == password,
            config.host == host,
            config.secure == secure,
            config.timeout == timeout,
    {
        Self { token, email, password, host, secure, timeout }
    }

    /// Sets the session token.
    pub fn with_token(&mut self, token: String)
        ensures
            *final(self) == (ScreepsConfig { token: Some(token), ..*old(self) }),
    {
        self.token = Some(token);
    }

    /// Sets the e-mail address.
    pub fn with_email(&mut self, email: String)
        ensures
            *final(self) == (ScreepsConfig { email: Some(email), ..*old(self) }),
    {
        self.email = Some(email);
    }

    /// Sets the password.
    pub fn with_password(&mut self, password: String)
        ensures
            *final(self) == (ScreepsConfig { password: Some(password), ..*old(self) }),
    {
        self.password = Some(password);
    }

    /// Sets the host of the game server.
    pub fn with_host(&mut self, host: String)
        ensures
            *final(self) == (ScreepsConfig { host: host, ..*old(self) }),
    {
        self.host = host;
    }

    /// Chooses between `https` and `http`.
    pub fn with_secure(&mut self, secure: bool)
        ensures
            *final(self) == (ScreepsConfig { secure: secure, ..*old(self) }),
    {
        self.secure = secure;
    }

    /// Sets the time allowed for one request, in seconds.
    pub fn with_timeout(&mut self, timeout: u64)
        ensures
            *final(self) == (ScreepsConfig { timeout: timeout, ..*old(self) }),
    {
        self.timeout = timeout;
    }

    /// Builds the prefix shared by every endpoint of the server.
    pub fn build_base_url(&self) -> (url: String)
        ensures
            url@ == self.spec_base_url(),
    {
        let protocol = if self.secure {
            "https"
        } else {
            "http"
        };
        let mut url = String::from_str(protocol);
        url.append("://");
        url.append(self.host.as_str());
        url.append("/api");
        url
    }

    /// The full address of `path`.
    pub open spec fn spec_url(&self, path: Seq<char>) -> Seq<char> {
        self.spec_base_url() + path
    }

    /// Joins the base address of the server and `path`.
    pub fn build_url(&self, path: &str) -> (url: String)
        ensures
            url@ == self.spec_url(path@),
    {
        let mut url = self.build_base_url();
        url.append(path);
        url
    }

    /// Whether both halves of the credentials are present.
    pub open spec fn spec_has_credentials(&self) -> bool {
        self.email is Some && self.password is Some
    }

    /// Hands out e-mail and password for a sign-in. Where either is missing
    /// this is a configuration error.
    pub fn credentials(&self) -> (r: Result<(String, String), ScreepsError>)
        ensures
            self.spec_has_credentials() ==> (r matches Ok(pair) && Some(pair.0) == self.email
                && Some(pair.1) == self.password),
            !self.spec_has_credentials() ==> (r matches Err(ScreepsError::Config(reason))
                && reason@ == "email or password is none"@),
    {
        match (&self.email, &self.password) {
            (Some(email), Some(password)) => Ok((email.clone(), password.clone())),
            _ => Err(ScreepsError::Config(String::from_str("email or password is none"))),
        }
    }

    /// Whether the three settings taken from the surroundings name any way to
    /// authenticate: an e-mail, a password, or a token that is not empty.
    pub open spec fn spec_names_credentials(
        email: Option<String>,
        password: Option<String>,
        token: Option<String>,
    ) -> bool {
        email is Some || password is Some || (token matches Some(t) && t@.len() > 0)
    }

    /// The text of a setting, or the empty text where it is not set.
    pub open spec fn spec_or_empty(setting: Option<String>) -> Seq<char> {
        match setting {
            Some(text) => text@,
            None => Seq::empty(),
        }
    }

    /// Builds the settings for the public server from what the surroundings
    /// provide. A setting that is not there counts as empty; where neither an
    /// e-mail nor a password is set, and no token but an empty one, there is
    /// nothing to build from.
    pub fn from_credentials(
        email: Option<String>,
        password: Option<String>,
        token: Option<String>,
    ) -> (r: Option<Self>)
        ensures
            r is Some == Self::spec_names_credentials(email, password, token),
            r matches Some(config) ==> {
                &&& config.token matches Some(t) && t@ == Self::spec_or_empty(token)
                &&& config.email matches Some(e) && e@ == Self::spec_or_empty(email)
                &&& config.password matches Some(p) && p@ == Self::spec_or_empty(password)
                &&& config.host@ == "screeps.com"@
                &&& config.secure
                &&& config.timeout == 10000
            },
    {
        let named = email.is_some() || password.is_some();
        let token = match token {
            Some(t) => t,
            None => String::new(),
        };
        if !named && token.as_str().is_empty() {
            return None;
        }
        let email = match email {
            Some(e) => e,
            None => String::new(),
        };
        let password = match password {
            Some(p) => p,
            None => String::new(),
        };
        Some(
            Self::new(
                Some(token),
                Some(email),
                Some(password),
                String::from_str("screeps.com"),
                true,
                10000,
            ),
        )
    }
}

impl Default for ScreepsConfig {
    /// The public server over `https`, with no credentials and fifteen seconds
    /// per request.
    fn default() -> (config: Self)
        ensures
            config.token is None,
            config.email is None,
            config.password is None,
            config.host@ == "screeps.com"@,
            config.secure,
            config.timeout == 15,
    {
        Self {
            token: None,
            email: None,
            password: None,
            host: String::from_str("screeps.com"),
            secure: true,
            timeout: 15,
        }
    }
}

} // verus!
