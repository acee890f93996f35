use vstd::prelude::*;

verus! {

/// Everything that can go wrong when talking to PayPal.
#[derive(Debug)]
pub enum Error {
    /// The HTTP exchange failed.
    Http(reqwest::Error),
    /// A body was not the JSON that was expected.
    Json(serde_json::Error),
    /// PayPal answered with an error.
    Api { message: String, debug_id: Option<String>, details: Vec<ErrorDetail> },
    /// PayPal refused the credentials.
    Auth(String),
    /// No valid access token could be had.
    TokenExpired,
    /// The request could not be built from what was given.
    Config(String),
    /// A webhook could not be verified.
    WebhookVerification(String),
}

/// The result of the client's operations.
pub type Result<T> = std::result::Result<T, Error>;

/// One entry of the `details` of an API error.
#[derive(Debug, Clone)]
pub struct ErrorDetail {
    pub field: Option<String>,
    pub value: Option<String>,
    pub issue: String,
    pub description: Option<String>,
}

/// How an error detail is displayed: `[field] ` when there is a field, the issue, then
/// ` - description` when there is a description.
pub open spec fn detail_text(d: ErrorDetail) -> Seq<char> {
    (if d.field is Some { seq!['['] + d.field->0@ + seq![']', ' '] } else { Seq::empty() }) + d.issue@
        + (if d.description is Some { seq![' ', '-', ' '] + d.description->0@ } else { Seq::empty() })
}

impl ErrorDetail {
    /// The text that `Display` shows for this detail.
    pub fn to_display_string(&self) -> (r: String)
        ensures
            r@ == detail_text(*self),
    {
        proof {
            reveal_strlit("[");
            reveal_strlit("] ");
            reveal_strlit(" - ");
        }
        let mut s = String::new();
        if let Some(field) = &self.field {
            s.append("[");
            s.append(field.as_str());
            s.append("] ");
        }
        s.append(self.issue.as_str());
        if let Some(desc) = &self.description {
            s.append(" - ");
            s.append(desc.as_str());
        }
        assert(s@ =~= detail_text(*self));
        s
    }
}

/// The error body that PayPal sends: an API error (`message`, `details`) or an OAuth error
/// (`error`, `error_description`).
#[derive(Debug)]
pub struct ApiErrorResponse {
    pub name: Option<String>,
    pub message: Option<String>,
    pub debug_id: Option<String>,
    pub details: Vec<ErrorDetail>,
    pub error: Option<String>,
    pub error_description: Option<String>,
}

/// Whether `e` is the error that the error body `resp` stands for: an OAuth error becomes
/// `Auth` with its description (or, lacking one, its code); anything else becomes `Api`, with
/// the message `"Unknown error"` when the body has none.
pub open spec fn error_for_response(resp: ApiErrorResponse, e: Error) -> bool {
    if resp.error is Some {
        e matches Error::Auth(m) && m@ == (if resp.error_description is Some {
            resp.error_description->0@
        } else {
            resp.error->0@
        })
    } else {
        e matches Error::Api { message, debug_id, details } && message@ == (if resp.message is Some {
            resp.message->0@
        } else {
            "Unknown error"@
        }) && debug_id == resp.debug_id && details@ == resp.details@
    }
}

impl Error {
    /// The error that an error body stands for (see `error_for_response`).
    pub fn from_api_response(resp: ApiErrorResponse) -> (r: Error)
        ensures
            error_for_response(resp, r),
    {
        if let Some(error) = resp.error {
            return Error::Auth(
                match resp.error_description {
                    Some(d) => d,
                    None => error,
                },
            );
        }
        Error::Api {
            message: match resp.message {
                Some(m) => m,
                None => String::from_str("Unknown error"),
            },
            debug_id: resp.debug_id,
            details: resp.details,
        }
    }

    /// A configuration error with the given message.
    pub fn config(message: &str) -> (r: Error)
        ensures
            r matches Error::Config(m) && m@ == message@,
    {
        Error::Config(String::from_str(message))
    }

    /// A webhook verification error with the given message.
    pub fn webhook_verification(message: &str) -> (r: Error)
        ensures
            r matches Error::WebhookVerification(m) && m@ == message@,
    {
        Error::WebhookVerification(String::from_str(message))
    }
}

impl From<ApiErrorResponse> for Error {
    /// The error that an error body stands for (see `error_for_response`).
    fn from(resp: ApiErrorResponse) -> (r: Error)
        ensures
            error_for_response(resp, r),
    {
        Error::from_api_response(resp)
    }
}

/// `from` builds a fresh message string, so its result is stated by the relation
/// `error_for_response` in its own `ensures` and not claimed as one value here.
impl vstd::std_specs::convert::FromSpecImpl<ApiErrorResponse> for Error {
    open spec fn obeys_from_spec() -> bool {
        false
    }

    open spec fn from_spec(resp: ApiErrorResponse) -> Error {
        choose|e: Error| error_for_response(resp, e)
    }
}

} // verus!
