use vstd::prelude::*;
use vstd::string::*;

verus! {

/// `reqwest::Error`, carried through as it is.
#[verifier::external_type_specification]
#[verifier::external_body]
pub struct ExTransportError(reqwest::Error);

/// `serde_json::Error`, carried through as it is.
#[verifier::external_type_specification]
#[verifier::external_body]
pub struct ExDecodeError(serde_json::Error);

/// Everything that can go wrong between a call and its decoded answer.
#[derive(Debug)]
pub enum ScreepsError {
    /// The request did not get through: no connection, a timeout, a TLS
    /// failure.
    Http(reqwest::Error),
    /// The body of the response is no JSON, or not of the expected shape.
    Json(serde_json::Error),
    /// The server answered, and reported a failure of its own.
    Api(String),
    /// The server did not accept the credentials.
    Auth,
    /// The configuration lacks something that the call needs.
    Config(String),
}

/// Asks a `reqwest::Error` for its own description, as its `Display` writes
/// it. Trusted, with nothing claimed of the text.
#[verifier::external_body]
fn transport_error_text(error: &reqwest::Error) -> (text: String) {
    error.to_string()
}

/// Asks a `serde_json::Error` for its own description, as its `Display`
/// writes it. Trusted, with nothing claimed of the text.
#[verifier::external_body]
fn decode_error_text(error: &serde_json::Error) -> (text: String) {
    error.to_string()
}

impl ScreepsError {
    /// How the message of each kind of error begins. It tells the layer that
    /// failed.
    pub open spec fn spec_prefix(&self) -> Seq<char> {
        match self {
            ScreepsError::Http(_) => "HTTP request failed: "@,
            ScreepsError::Json(_) => "JSON parse failed: "@,
            ScreepsError::Api(_) => "API error: "@,
            ScreepsError::Auth => "Auth failed"@,
            ScreepsError::Config(_) => "Invalid config: "@,
        }
    }

    /// The message to show for this error: the layer that failed, then the
    /// reason. For the two layers below this library the reason is whatever
    /// they say of themselves.
    pub fn message(&self) -> (text: String)
        ensures
            self.spec_prefix().is_prefix_of(text@),
            self matches ScreepsError::Api(reason) ==> text@ == self.spec_prefix() + reason@,
            self matches ScreepsError::Config(reason) ==> text@ == self.spec_prefix() + reason@,
            self is Auth ==> text@ == self.spec_prefix(),
    {
        match self {
            ScreepsError::Http(error) => {
                let detail = transport_error_text(error);
                String::from_str("HTTP request failed: ").concat(detail.as_str())
            },
            ScreepsError::Json(error) => {
                let detail = decode_error_text(error);
                String::from_str("JSON parse failed: ").concat(detail.as_str())
            },
            ScreepsError::Api(reason) => String::from_str("API error: ").concat(reason.as_str()),
            ScreepsError::Auth => String::from_str("Auth failed"),
            ScreepsError::Config(reason) => String::from_str("Invalid config: ").concat(
                reason.as_str(),
            ),
        }
    }
}

} // verus!
