//! What the client computes around its HTTP exchanges: addresses, authorization headers,
//! the webhook verification request and the decisions taken on the answers.

use vstd::prelude::*;
use vstd::utf8::encode_utf8;
use crate::error::Error;
use crate::models::common::Money;
use crate::models::order::RefundRequest;
use crate::models::webhook::{
    last_header_value, transmission_id_header, transmission_time_header, cert_url_header,
    auth_algo_header, transmission_sig_header, VerifyWebhookResponse, WebhookHeaders,
};
use reqwest::header::HeaderValue;
use std::time::{Duration, Instant};

verus! {

/// Which PayPal service the client talks to.
#[derive(Debug, Clone, Copy, PartialEq, Eq, Structural)]
pub enum Environment {
    Sandbox,
    Live,
}

impl Environment {
    /// The address of the service's REST API.
    pub open spec fn spec_base_url(&self) -> Seq<char> {
        match self {
            Environment::Sandbox => "https://api-m.sandbox.paypal.com"@,
            Environment::Live => "https://api-m.paypal.com"@,
        }
    }

    pub fn base_url(&self) -> (r: &'static str)
        ensures
            r@ == self.spec_base_url(),
    {
        match self {
            Environment::Sandbox => "https://api-m.sandbox.paypal.com",
            Environment::Live => "https://api-m.paypal.com",
        }
    }

    fn url_of(&self, path: &str) -> (r: String)
        ensures
            r@ == self.spec_base_url() + path@,
    {
        let mut url = String::from_str(self.base_url());
        url.append(path);
        url
    }

    fn url_with_id(&self, path: &str, id: &str, suffix: &str) -> (r: String)
        ensures
            r@ == self.spec_base_url() + path@ + id@ + suffix@,
    {
        let mut url = self.url_of(path);
        url.append(id);
        url.append(suffix);
        url
    }

    /// Where access tokens are issued.
    pub fn token_url(&self) -> (r: String)
        ensures
            r@ == self.spec_base_url() + "/v1/oauth2/token"@,
    {
        self.url_of("/v1/oauth2/token")
    }

    /// Where orders are created.
    pub fn orders_url(&self) -> (r: String)
        ensures
            r@ == self.spec_base_url() + "/v2/checkout/orders"@,
    {
        self.url_of("/v2/checkout/orders")
    }

    /// The address of one order.
    pub fn order_url(&self, order_id: &str) -> (r: String)
        ensures
            r@ == self.spec_base_url() + "/v2/checkout/orders/"@ + order_id@,
    {
        let r = self.url_with_id("/v2/checkout/orders/", order_id, "");
        assert(r@ =~= self.spec_base_url() + "/v2/checkout/orders/"@ + order_id@) by {
            reveal_strlit("");
        }
        r
    }

    /// Where an approved order is captured.
    pub fn capture_url(&self, order_id: &str) -> (r: String)
        ensures
            r@ == self.spec_base_url() + "/v2/checkout/orders/"@ + order_id@ + "/capture"@,
    {
        self.url_with_id("/v2/checkout/orders/", order_id, "/capture")
    }

    /// Where a capture is refunded.
    pub fn refund_url(&self, capture_id: &str) -> (r: String)
        ensures
            r@ == self.spec_base_url() + "/v2/payments/captures/"@ + capture_id@ + "/refund"@,
    {
        self.url_with_id("/v2/payments/captures/", capture_id, "/refund")
    }

    /// Where client tokens are generated.
    pub fn client_token_url(&self) -> (r: String)
        ensures
            r@ == self.spec_base_url() + "/v1/identity/generate-token"@,
    {
        self.url_of("/v1/identity/generate-token")
    }

    /// Where webhook signatures are verified.
    pub fn verify_webhook_url(&self) -> (r: String)
        ensures
            r@ == self.spec_base_url() + "/v1/notifications/verify-webhook-signature"@,
    {
        self.url_of("/v1/notifications/verify-webhook-signature")
    }
}

/// The character of the standard base64 alphabet for the six-bit value `v`.
pub open spec fn base64_char(v: int) -> char {
    if v < 26 {
        (65 + v) as char
    } else if v < 52 {
        (97 + v - 26) as char
    } else if v < 62 {
        (48 + v - 52) as char
    } else if v == 62 {
        '+'
    } else {
        '/'
    }
}

/// Standard base64 with padding (RFC 4648): each group of three bytes becomes four
/// characters of six bits each; a last group of one or two bytes is padded with `=`.
pub open spec fn base64_standard(bytes: Seq<u8>) -> Seq<char>
    decreases bytes.len(),
{
    if bytes.len() == 0 {
        Seq::empty()
    } else if bytes.len() == 1 {
        let b0 = bytes[0] as int;
        seq![base64_char(b0 / 4), base64_char((b0 % 4) * 16), '=', '=']
    } else if bytes.len() == 2 {
        let b0 = bytes[0] as int;
        let b1 = bytes[1] as int;
        seq![base64_char(b0 / 4), base64_char((b0 % 4) * 16 + b1 / 16), base64_char((b1 % 16) * 4), '=']
    } else {
        let b0 = bytes[0] as int;
        let b1 = bytes[1] as int;
        let b2 = bytes[2] as int;
        seq![
            base64_char(b0 / 4),
            base64_char((b0 % 4) * 16 + b1 / 16),
            base64_char((b1 % 16) * 4 + b2 / 64),
            base64_char(b2 % 64),
        ] + base64_standard(bytes.skip(3))
    }
}

/// Calls `base64::Engine::encode` with the standard engine (`STANDARD`: the standard
/// alphabet, with padding), which writes `base64_standard` of the bytes. The engine panics
/// when the encoded length overflows `usize`; half of `usize` leaves room for it.
#[verifier::external_body]
fn base64_encode(bytes: &[u8]) -> (r: String)
    requires
        bytes@.len() <= usize::MAX / 2,
    ensures
        r@ == base64_standard(bytes@),
{
    base64::Engine::encode(&base64::engine::general_purpose::STANDARD, bytes)
}

/// The `Authorization` header that asks for an access token: `Basic `, then the base64 of
/// `client_id:client_secret` in UTF-8.
pub fn basic_authorization(client_id: &str, client_secret: &str) -> (r: String)
    requires
        encode_utf8(client_id@ + ":"@ + client_secret@).len() <= usize::MAX / 2,
    ensures
        r@ == "Basic "@ + base64_standard(encode_utf8(client_id@ + ":"@ + client_secret@)),
{
    let mut credentials = String::from_str(client_id);
    credentials.append(":");
    credentials.append(client_secret);
    let encoded = base64_encode(credentials.as_str().as_bytes());
    let mut header = String::from_str("Basic ");
    header.append(encoded.as_str());
    header
}

/// A byte that may stand in an HTTP header value: visible ASCII, space, tab, or a byte of a
/// non-ASCII character.
pub open spec fn header_byte_valid(b: u8) -> bool {
    (b >= 32 && b != 127) || b == 9
}

/// Whether every byte of `bytes` may stand in an HTTP header value.
pub open spec fn header_bytes_valid(bytes: Seq<u8>) -> bool {
    forall|i: int| 0 <= i < bytes.len() ==> header_byte_valid(#[trigger] bytes[i])
}

/// Calls `HeaderValue::from_str` and tells whether it succeeded: in `http` it accepts a text
/// exactly when each of its UTF-8 bytes is valid in a header value.
#[verifier::external_body]
fn header_value_accepts(text: &str) -> (r: bool)
    ensures
        r <==> header_bytes_valid(encode_utf8(text@)),
{
    HeaderValue::from_str(text).is_ok()
}

/// The text of the `Authorization` header for API calls: `Bearer ` and the access token; a
/// token that cannot stand in a header is a configuration error.
pub fn bearer_authorization(token: &str) -> (r: Result<String, Error>)
    ensures
        r is Ok <==> header_bytes_valid(encode_utf8("Bearer "@ + token@)),
        r matches Ok(s) ==> s@ == "Bearer "@ + token@,
        r matches Err(e) ==> (e matches Error::Config(m) && m@ == "Invalid token format"@),
{
    let mut text = String::from_str("Bearer ");
    text.append(token);
    if header_value_accepts(text.as_str()) {
        Ok(text)
    } else {
        Err(Error::config("Invalid token format"))
    }
}

/// What `serde_json::from_str` reads from `text` as a `serde_json::Value`, or `None` when
/// `text` is not JSON.
pub uninterp spec fn parsed_json(text: Seq<char>) -> Option<serde_json::Value>;

/// Calls `serde_json::from_str` for a `serde_json::Value`. Its outcome is named by
/// `parsed_json`, a function of the text alone.
#[verifier::external_body]
fn parse_json_value(text: &str) -> (r: std::result::Result<serde_json::Value, serde_json::Error>)
    ensures
        r is Ok <==> parsed_json(text@) is Some,
        r matches Ok(v) ==> parsed_json(text@) == Some(v),
{
    serde_json::from_str(text)
}

/// Whether all five signature headers are among `headers`.
pub open spec fn signature_headers_present(headers: Seq<(&str, &str)>) -> bool {
    &&& last_header_value(headers, transmission_id_header()) is Some
    &&& last_header_value(headers, transmission_time_header()) is Some
    &&& last_header_value(headers, cert_url_header()) is Some
    &&& last_header_value(headers, auth_algo_header()) is Some
    &&& last_header_value(headers, transmission_sig_header()) is Some
}

/// The line break and indent between the members of the verification request.
pub open spec fn request_separator() -> Seq<char> {
    "\n            "@
}

/// The body of a signature verification request: the webhook id, the five signature
/// headers, and the notification as it was received.
pub open spec fn verification_request_text(
    webhook_id: Seq<char>,
    headers: Seq<(&str, &str)>,
    body: Seq<char>,
) -> Seq<char> {
    "{\"webhook_id\":\""@ + webhook_id + "\","@ + request_separator()
        + "\"transmission_id\": \""@ + last_header_value(headers, transmission_id_header())->0
        + "\","@ + request_separator()
        + "\"transmission_time\": \""@ + last_header_value(headers, transmission_time_header())->0
        + "\","@ + request_separator()
        + "\"cert_url\": \""@ + last_header_value(headers, cert_url_header())->0
        + "\","@ + request_separator()
        + "\"auth_algo\": \""@ + last_header_value(headers, auth_algo_header())->0
        + "\","@ + request_separator()
        + "\"transmission_sig\": \""@ + last_header_value(headers, transmission_sig_header())->0
        + "\","@ + request_separator()
        + "\"webhook_event\":"@ + body + "}"@
}

/// A webhook notification that is ready to be verified: the request to send and the
/// notification read as JSON.
#[derive(Debug)]
pub struct WebhookVerification {
    pub request_body: String,
    pub event: serde_json::Value,
}

/// Prepares the verification of a webhook notification. Fails, in this order, when a
/// signature header is missing, when no webhook id is set, and when the body is not JSON.
pub fn prepare_webhook_verification(
    body: &str,
    headers: &[(&str, &str)],
    webhook_id: Option<&str>,
) -> (r: Result<WebhookVerification, Error>)
    ensures
        !signature_headers_present(headers@) ==> (r matches Err(Error::WebhookVerification(m))
            && m@ == "Missing required headers"@),
        signature_headers_present(headers@) && webhook_id is None ==> (r matches Err(
            Error::WebhookVerification(m),
        ) && m@ == "Webhook ID not set"@),
        signature_headers_present(headers@) && webhook_id is Some && parsed_json(body@) is None ==> (
        r matches Err(Error::Json(_))),
        signature_headers_present(headers@) && webhook_id is Some && parsed_json(body@) is Some ==> (
        r matches Ok(v) && v.request_body@ == verification_request_text(
            webhook_id->0@,
            headers@,
            body@,
        ) && Some(v.event) == parsed_json(body@)),
{
    let h = match WebhookHeaders::from_headers(headers) {
        Some(h) => h,
        None => {
            return Err(Error::webhook_verification("Missing required headers"));
        },
    };
    let id = match webhook_id {
        Some(id) => id,
        None => {
            return Err(Error::webhook_verification("Webhook ID not set"));
        },
    };
    let event = match parse_json_value(body) {
        Ok(v) => v,
        Err(e) => {
            return Err(Error::Json(e));
        },
    };
    let mut text = String::from_str("{\"webhook_id\":\"");
    text.append(id);
    text.append("\",\n            \"transmission_id\": \"");
    text.append(h.transmission_id.as_str());
    text.append("\",\n            \"transmission_time\": \"");
    text.append(h.transmission_time.as_str());
    text.append("\",\n            \"cert_url\": \"");
    text.append(h.cert_url.as_str());
    text.append("\",\n            \"auth_algo\": \"");
    text.append(h.auth_algo.as_str());
    text.append("\",\n            \"transmission_sig\": \"");
    text.append(h.transmission_sig.as_str());
    text.append("\",\n            \"webhook_event\":");
    text.append(body);
    text.append("}");
    proof {
        reveal_strlit("\",\n            \"transmission_id\": \"");
        reveal_strlit("\",\n            \"transmission_time\": \"");
        reveal_strlit("\",\n            \"cert_url\": \"");
        reveal_strlit("\",\n            \"auth_algo\": \"");
        reveal_strlit("\",\n            \"transmission_sig\": \"");
        reveal_strlit("\",\n            \"webhook_event\":");
        reveal_strlit("\",");
        reveal_strlit("\n            ");
        reveal_strlit("\"transmission_id\": \"");
        reveal_strlit("\"transmission_time\": \"");
        reveal_strlit("\"cert_url\": \"");
        reveal_strlit("\"auth_algo\": \"");
        reveal_strlit("\"transmission_sig\": \"");
        reveal_strlit("\"webhook_event\":");
    }
    assert(text@ =~= verification_request_text(id@, headers@, body@));
    Ok(WebhookVerification { request_body: text, event })
}

/// PayPal's verdict on a signature: only `SUCCESS` lets the notification through.
pub fn check_verification(resp: &VerifyWebhookResponse) -> (r: Result<(), Error>)
    ensures
        r is Ok <==> resp.verification_status@ == "SUCCESS"@,
        r matches Err(e) ==> (e matches Error::WebhookVerification(m) && m@
            == "Signature verification failed"@),
{
    if resp.is_success() {
        Ok(())
    } else {
        Err(Error::webhook_verification("Signature verification failed"))
    }
}

/// How long before its expiry an access token is renewed, in seconds.
pub const TOKEN_RENEWAL_MARGIN_SECS: u64 = 60;

/// Whether a token that expires in `seconds_left` whole seconds is to be renewed.
pub fn expires_within_margin(seconds_left: u64) -> (r: bool)
    ensures
        r == (seconds_left < TOKEN_RENEWAL_MARGIN_SECS),
{
    seconds_left < TOKEN_RENEWAL_MARGIN_SECS
}

/// Calls `Instant::now`. Nothing is stated of the result: it is the time.
#[verifier::external_body]
fn instant_now() -> Instant {
    Instant::now()
}

/// What `Instant::saturating_duration_since` gives: how long after `earlier` `later` is, or
/// zero when it is not after it.
pub uninterp spec fn saturating_duration(later: Instant, earlier: Instant) -> Duration;

/// Calls `Instant::saturating_duration_since`; the result is named by `saturating_duration`,
/// a function of the two instants alone.
#[verifier::external_body]
fn duration_since(later: &Instant, earlier: Instant) -> (r: Duration)
    ensures
        r == saturating_duration(*later, earlier),
{
    later.saturating_duration_since(earlier)
}

/// What `Duration::as_secs` gives: the whole seconds of a duration.
pub uninterp spec fn duration_whole_secs(d: Duration) -> u64;

/// Calls `Duration::as_secs`; the result is named by `duration_whole_secs`.
#[verifier::external_body]
fn whole_seconds(d: &Duration) -> (r: u64)
    ensures
        r == duration_whole_secs(*d),
{
    d.as_secs()
}

/// An access token and the moment it expires.
#[derive(Debug)]
pub struct AccessToken {
    pub token: String,
    pub expires_at: Instant,
}

impl AccessToken {
    /// The whole seconds from `now` until the token expires (zero once it has).
    pub open spec fn seconds_left_at(&self, now: Instant) -> u64 {
        duration_whole_secs(saturating_duration(self.expires_at, now))
    }

    /// Whether at `now` the token is to be renewed: it expires within
    /// `TOKEN_RENEWAL_MARGIN_SECS` (a remaining duration is under a whole number of seconds
    /// exactly when its whole seconds are).
    pub open spec fn spec_expired_at(&self, now: Instant) -> bool {
        self.seconds_left_at(now) < TOKEN_RENEWAL_MARGIN_SECS
    }

    /// Whether at `now` the token is to be renewed.
    pub fn is_expired_at(&self, now: Instant) -> (r: bool)
        ensures
            r == self.spec_expired_at(now),
    {
        let left = duration_since(&self.expires_at, now);
        expires_within_margin(whole_seconds(&left))
    }

    /// Whether the token is to be renewed now: the verdict of `is_expired_at` at the moment
    /// that the clock is read.
    pub fn is_expired(&self) -> (r: bool)
        ensures
            exists|now: Instant| r == #[trigger] self.spec_expired_at(now),
    {
        let now = instant_now();
        let r = self.is_expired_at(now);
        assert(r == self.spec_expired_at(now));
        r
    }
}

/// The view of an optional text.
pub open spec fn opt_string_view(o: Option<String>) -> Option<Seq<char>> {
    match o {
        Some(s) => Some(s@),
        None => None,
    }
}

/// The token that may be used when the cached token, if any, expires in `seconds_left`
/// whole seconds: the cached one unless it expires within the renewal margin.
pub open spec fn token_to_use(cached: Option<AccessToken>, seconds_left: u64) -> Option<Seq<char>> {
    match cached {
        Some(c) => if seconds_left >= TOKEN_RENEWAL_MARGIN_SECS {
            Some(c.token@)
        } else {
            None
        },
        None => None,
    }
}

/// The cached token when it expires in `seconds_left` whole seconds: the token unless that
/// is within the renewal margin; nothing when there is no cached token.
pub fn usable_token_with_seconds_left(cached: &Option<AccessToken>, seconds_left: u64) -> (r: Option<String>)
    ensures
        opt_string_view(r) == token_to_use(*cached, seconds_left),
{
    match cached {
        Some(t) => {
            if !expires_within_margin(seconds_left) {
                Some(t.token.clone())
            } else {
                None
            }
        },
        None => None,
    }
}

/// The cached token when, at `now`, it is not about to expire.
pub fn usable_token_at(cached: &Option<AccessToken>, now: Instant) -> (r: Option<String>)
    ensures
        cached is None ==> r is None,
        cached matches Some(c) ==> opt_string_view(r) == token_to_use(*cached, c.seconds_left_at(now)),
{
    match cached {
        Some(t) => {
            let left = duration_since(&t.expires_at, now);
            usable_token_with_seconds_left(cached, whole_seconds(&left))
        },
        None => None,
    }
}

/// The cached token when it is not about to expire, judged at the moment that the clock is
/// read.
pub fn usable_token(cached: &Option<AccessToken>) -> (r: Option<String>)
    ensures
        cached is None ==> r is None,
        cached matches Some(c) ==> exists|now: Instant| opt_string_view(r) == token_to_use(
            *cached,
            #[trigger] c.seconds_left_at(now),
        ),
{
    let now = instant_now();
    usable_token_at(cached, now)
}

/// A cached token is handed out exactly when it is not to be renewed: at any moment, the
/// token that `usable_token_at` gives is the cached one when `is_expired_at` finds it not
/// expired then, and there is none when it finds it expired.
pub proof fn law_token_used_exactly_when_not_expired(cached: AccessToken, now: Instant, r: Option<String>)
    requires
        opt_string_view(r) == token_to_use(Some(cached), cached.seconds_left_at(now)),
    ensures
        r is Some <==> !cached.spec_expired_at(now),
        r matches Some(t) ==> t@ == cached.token@,
{
}

/// The token after a renewal: the cached one, or `TokenExpired` when there is none.
pub fn renewed_token(cached: &Option<AccessToken>) -> (r: Result<String, Error>)
    ensures
        cached matches Some(c) ==> (r matches Ok(t) && t@ == c.token@),
        cached is None ==> (r matches Err(Error::TokenExpired)),
{
    match cached {
        Some(t) => Ok(t.token.clone()),
        None => Err(Error::TokenExpired),
    }
}

/// Builds the request that refunds a capture, in full or in part.
#[derive(Debug)]
pub struct RefundBuilder {
    pub capture_id: String,
    pub amount: Option<Money>,
    pub note: Option<String>,
    pub invoice_id: Option<String>,
}

impl RefundBuilder {
    /// A refund of the capture `capture_id`, for its full amount, with no note or invoice.
    pub fn new(capture_id: &str) -> (r: RefundBuilder)
        ensures
            r.capture_id@ == capture_id@,
            r.amount is None && r.note is None && r.invoice_id is None,
    {
        RefundBuilder { capture_id: String::from_str(capture_id), amount: None, note: None, invoice_id: None }
    }

    /// Refunds `amount` only.
    pub fn partial(self, amount: Money) -> (r: RefundBuilder)
        ensures
            r == (RefundBuilder { amount: Some(amount), ..self }),
    {
        RefundBuilder { amount: Some(amount), ..self }
    }

    /// Sets the note to the payer.
    pub fn note(self, note: &str) -> (r: RefundBuilder)
        ensures
            r == (RefundBuilder { note: r.note, ..self }),
            r.note matches Some(n) && n@ == note@,
    {
        RefundBuilder { note: Some(String::from_str(note)), ..self }
    }

    /// Sets the invoice number.
    pub fn invoice_id(self, invoice_id: &str) -> (r: RefundBuilder)
        ensures
            r == (RefundBuilder { invoice_id: r.invoice_id, ..self }),
            r.invoice_id matches Some(n) && n@ == invoice_id@,
    {
        RefundBuilder { invoice_id: Some(String::from_str(invoice_id)), ..self }
    }

    /// The request of a full refund: no amount, whatever was set with `partial`.
    pub fn full_request(self) -> (r: RefundRequest)
        ensures
            r == (RefundRequest { amount: None, note_to_payer: self.note, invoice_id: self.invoice_id }),
    {
        RefundRequest { amount: None, note_to_payer: self.note, invoice_id: self.invoice_id }
    }

    /// The request of the refund as it was set up.
    pub fn request(self) -> (r: RefundRequest)
        ensures
            r == (RefundRequest { amount: self.amount, note_to_payer: self.note, invoice_id: self.invoice_id }),
    {
        RefundRequest { amount: self.amount, note_to_payer: self.note, invoice_id: self.invoice_id }
    }
}

} // verus!
