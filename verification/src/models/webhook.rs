pub mod event_types;

use vstd::prelude::*;
use crate::models::order::{Capture, Order, Refund};
use crate::text::str_eq;

verus! {

/// A webhook notification as PayPal sends it; `resource` is the object it is about.
#[derive(Debug)]
pub struct WebhookEvent {
    pub id: String,
    pub event_type: String,
    pub event_version: Option<String>,
    pub create_time: String,
    pub resource_type: String,
    pub resource_version: Option<String>,
    pub summary: Option<String>,
    pub resource: serde_json::Value,
    pub links: Vec<WebhookLink>,
}

/// A link of a webhook notification.
#[derive(Debug)]
pub struct WebhookLink {
    pub href: String,
    pub rel: String,
    pub method: Option<String>,
}

/// A webhook notification with its resource read as the type that its event type names.
#[derive(Debug)]
pub enum ParsedWebhookEvent {
    OrderApproved(Order),
    OrderCompleted(Order),
    PaymentCaptureCompleted(Capture),
    PaymentCaptureDenied(Capture),
    PaymentCapturePending(Capture),
    PaymentCaptureRefunded(Capture),
    RefundCompleted(Refund),
    Unknown { event_type: String, resource: serde_json::Value },
}

/// Which variant of `ParsedWebhookEvent` an event type calls for.
#[derive(Debug, Clone, Copy, PartialEq, Eq, Structural)]
pub enum WebhookEventKind {
    OrderApproved,
    OrderCompleted,
    PaymentCaptureCompleted,
    PaymentCaptureDenied,
    PaymentCapturePending,
    PaymentCaptureRefunded,
    RefundCompleted,
    Unknown,
}

/// The kind of event that an event type names.
pub open spec fn kind_of(event_type: Seq<char>) -> WebhookEventKind {
    if event_type == "CHECKOUT.ORDER.APPROVED"@ {
        WebhookEventKind::OrderApproved
    } else if event_type == "CHECKOUT.ORDER.COMPLETED"@ {
        WebhookEventKind::OrderCompleted
    } else if event_type == "PAYMENT.CAPTURE.COMPLETED"@ {
        WebhookEventKind::PaymentCaptureCompleted
    } else if event_type == "PAYMENT.CAPTURE.DENIED"@ {
        WebhookEventKind::PaymentCaptureDenied
    } else if event_type == "PAYMENT.CAPTURE.PENDING"@ {
        WebhookEventKind::PaymentCapturePending
    } else if event_type == "PAYMENT.CAPTURE.REFUNDED"@ {
        WebhookEventKind::PaymentCaptureRefunded
    } else if event_type == "PAYMENT.REFUND.COMPLETED"@ {
        WebhookEventKind::RefundCompleted
    } else {
        WebhookEventKind::Unknown
    }
}

/// Whether an event type reports a completed payment.
pub open spec fn is_payment_success_type(event_type: Seq<char>) -> bool {
    event_type == "CHECKOUT.ORDER.COMPLETED"@ || event_type == "PAYMENT.CAPTURE.COMPLETED"@
}

impl WebhookEvent {
    /// Which kind of resource this event carries, by its event type.
    pub fn kind(&self) -> (r: WebhookEventKind)
        ensures
            r == kind_of(self.event_type@),
    {
        let t = self.event_type.as_str();
        if str_eq(t, event_types::ORDER_APPROVED) {
            WebhookEventKind::OrderApproved
        } else if str_eq(t, event_types::ORDER_COMPLETED) {
            WebhookEventKind::OrderCompleted
        } else if str_eq(t, event_types::CAPTURE_COMPLETED) {
            WebhookEventKind::PaymentCaptureCompleted
        } else if str_eq(t, event_types::CAPTURE_DENIED) {
            WebhookEventKind::PaymentCaptureDenied
        } else if str_eq(t, event_types::CAPTURE_PENDING) {
            WebhookEventKind::PaymentCapturePending
        } else if str_eq(t, event_types::CAPTURE_REFUNDED) {
            WebhookEventKind::PaymentCaptureRefunded
        } else if str_eq(t, event_types::REFUND_COMPLETED) {
            WebhookEventKind::RefundCompleted
        } else {
            WebhookEventKind::Unknown
        }
    }

    /// Whether the event reports a completed payment: a completed order or capture.
    pub fn is_payment_success(&self) -> (r: bool)
        ensures
            r == is_payment_success_type(self.event_type@),
    {
        let t = self.event_type.as_str();
        str_eq(t, event_types::ORDER_COMPLETED) || str_eq(t, event_types::CAPTURE_COMPLETED)
    }
}

/// What `str::to_lowercase` gives for a text (Unicode lowercase mapping).
pub uninterp spec fn lowercase(s: Seq<char>) -> Seq<char>;

/// Calls `str::to_lowercase`, which maps each character to its Unicode lowercase; the
/// result is named by `lowercase`, a function of the text alone.
#[verifier::external_body]
fn to_lowercase(s: &str) -> (r: String)
    ensures
        r@ == lowercase(s@),
{
    s.to_lowercase()
}

/// What `serde_json::Value::get` gives with a text key: the member of that name when the
/// value is an object that has one, else `None`.
pub uninterp spec fn json_member_of(v: serde_json::Value, key: Seq<char>) -> Option<serde_json::Value>;

/// Calls `serde_json::Value::get` with a key; the result is named by `json_member_of`, a
/// function of the value and the key alone.
#[verifier::external_body]
fn json_member<'a>(v: &'a serde_json::Value, key: &str) -> (r: Option<&'a serde_json::Value>)
    ensures
        match r {
            Some(m) => json_member_of(*v, key@) == Some(*m),
            None => json_member_of(*v, key@) is None,
        },
{
    v.get(key)
}

/// What `serde_json::Value::as_str` gives: the text of a JSON string, else `None`.
pub uninterp spec fn json_string_of(v: serde_json::Value) -> Option<Seq<char>>;

/// The view of an optional borrowed text.
pub open spec fn opt_str_view(o: Option<&str>) -> Option<Seq<char>> {
    match o {
        Some(s) => Some(s@),
        None => None,
    }
}

/// Calls `serde_json::Value::as_str`; the result is named by `json_string_of`, a function of
/// the value alone.
#[verifier::external_body]
fn json_text(v: &serde_json::Value) -> (r: Option<&str>)
    ensures
        opt_str_view(r) == json_string_of(*v),
{
    v.as_str()
}

/// The text of the `id` member of a resource when it is a JSON string.
pub open spec fn resource_id(resource: serde_json::Value) -> Option<Seq<char>> {
    match json_member_of(resource, "id"@) {
        Some(m) => json_string_of(m),
        None => None,
    }
}

impl WebhookEvent {
    /// The `id` member of the resource when it is a string: the id of the order (or of
    /// the capture or refund) that the event is about.
    pub fn order_id(&self) -> (r: Option<&str>)
        ensures
            opt_str_view(r) == resource_id(self.resource),
    {
        match json_member(&self.resource, "id") {
            Some(v) => json_text(v),
            None => None,
        }
    }
}

/// The headers that PayPal signs a webhook notification with.
#[derive(Debug)]
pub struct WebhookHeaders {
    pub transmission_id: String,
    pub transmission_time: String,
    pub cert_url: String,
    pub auth_algo: String,
    pub transmission_sig: String,
}

/// The value of the last header in `headers` whose lowercased name is `name`.
pub open spec fn last_header_value(headers: Seq<(&str, &str)>, name: Seq<char>) -> Option<Seq<char>>
    decreases headers.len(),
{
    if headers.len() == 0 {
        None
    } else if lowercase(headers.last().0@) == name {
        Some(headers.last().1@)
    } else {
        last_header_value(headers.drop_last(), name)
    }
}

/// The view of an optional text.
pub open spec fn opt_text(o: Option<String>) -> Option<Seq<char>> {
    match o {
        Some(s) => Some(s@),
        None => None,
    }
}

pub open spec fn transmission_id_header() -> Seq<char> {
    "paypal-transmission-id"@
}

pub open spec fn transmission_time_header() -> Seq<char> {
    "paypal-transmission-time"@
}

pub open spec fn cert_url_header() -> Seq<char> {
    "paypal-cert-url"@
}

pub open spec fn auth_algo_header() -> Seq<char> {
    "paypal-auth-algo"@
}

pub open spec fn transmission_sig_header() -> Seq<char> {
    "paypal-transmission-sig"@
}

proof fn lemma_header_names_distinct()
    ensures
        transmission_id_header() != transmission_time_header(),
        transmission_id_header() != cert_url_header(),
        transmission_id_header() != auth_algo_header(),
        transmission_id_header() != transmission_sig_header(),
        transmission_time_header() != cert_url_header(),
        transmission_time_header() != auth_algo_header(),
        transmission_time_header() != transmission_sig_header(),
        cert_url_header() != auth_algo_header(),
        cert_url_header() != transmission_sig_header(),
        auth_algo_header() != transmission_sig_header(),
{
    reveal_strlit("paypal-transmission-id");
    reveal_strlit("paypal-transmission-time");
    reveal_strlit("paypal-cert-url");
    reveal_strlit("paypal-auth-algo");
    reveal_strlit("paypal-transmission-sig");
    assert(transmission_id_header().len() == 22);
    assert(transmission_time_header().len() == 24);
    assert(cert_url_header().len() == 15);
    assert(auth_algo_header().len() == 16);
    assert(transmission_sig_header().len() == 23);
}

impl WebhookHeaders {
    /// Collects the signature headers, matching names case-insensitively (a later header
    /// of the same name wins); `None` when one of the five is missing.
    pub fn from_headers(headers: &[(&str, &str)]) -> (r: Option<WebhookHeaders>)
        ensures
            r is Some <==> {
                &&& last_header_value(headers@, transmission_id_header()) is Some
                &&& last_header_value(headers@, transmission_time_header()) is Some
                &&& last_header_value(headers@, cert_url_header()) is Some
                &&& last_header_value(headers@, auth_algo_header()) is Some
                &&& last_header_value(headers@, transmission_sig_header()) is Some
            },
            r matches Some(h) ==> {
                &&& Some(h.transmission_id@) == last_header_value(headers@, transmission_id_header())
                &&& Some(h.transmission_time@) == last_header_value(headers@, transmission_time_header())
                &&& Some(h.cert_url@) == last_header_value(headers@, cert_url_header())
                &&& Some(h.auth_algo@) == last_header_value(headers@, auth_algo_header())
                &&& Some(h.transmission_sig@) == last_header_value(headers@, transmission_sig_header())
            },
    {
        let mut transmission_id: Option<String> = None;
        let mut transmission_time: Option<String> = None;
        let mut cert_url: Option<String> = None;
        let mut auth_algo: Option<String> = None;
        let mut transmission_sig: Option<String> = None;
        let n = headers.len();
        let mut i: usize = 0;
        while i < n
            invariant
                n == headers@.len(),
                i <= n,
                opt_text(transmission_id) == last_header_value(headers@.take(i as int), transmission_id_header()),
                opt_text(transmission_time) == last_header_value(headers@.take(i as int), transmission_time_header()),
                opt_text(cert_url) == last_header_value(headers@.take(i as int), cert_url_header()),
                opt_text(auth_algo) == last_header_value(headers@.take(i as int), auth_algo_header()),
                opt_text(transmission_sig) == last_header_value(headers@.take(i as int), transmission_sig_header()),
            decreases n - i,
        {
            proof {
                lemma_header_names_distinct();
            }
            let (key, value) = headers[i];
            let lower = to_lowercase(key);
            let k = lower.as_str();
            assert(headers@.take(i + 1).drop_last() == headers@.take(i as int));
            assert(headers@.take(i + 1).last() == headers@[i as int]);
            if str_eq(k, "paypal-transmission-id") {
                transmission_id = Some(String::from_str(value));
            } else if str_eq(k, "paypal-transmission-time") {
                transmission_time = Some(String::from_str(value));
            } else if str_eq(k, "paypal-cert-url") {
                cert_url = Some(String::from_str(value));
            } else if str_eq(k, "paypal-auth-algo") {
                auth_algo = Some(String::from_str(value));
            } else if str_eq(k, "paypal-transmission-sig") {
                transmission_sig = Some(String::from_str(value));
            }
            i += 1;
        }
        assert(headers@.take(n as int) == headers@);
        match (transmission_id, transmission_time, cert_url, auth_algo, transmission_sig) {
            (Some(transmission_id), Some(transmission_time), Some(cert_url), Some(auth_algo), Some(transmission_sig)) => {
                Some(WebhookHeaders { transmission_id, transmission_time, cert_url, auth_algo, transmission_sig })
            },
            _ => None,
        }
    }
}

/// PayPal's answer to a signature verification.
#[derive(Debug)]
pub struct VerifyWebhookResponse {
    pub verification_status: String,
}

impl VerifyWebhookResponse {
    /// Whether PayPal found the signature valid: the status is `SUCCESS`.
    pub fn is_success(&self) -> (r: bool)
        ensures
            r == (self.verification_status@ == "SUCCESS"@),
    {
        str_eq(self.verification_status.as_str(), "SUCCESS")
    }
}

/// An event reports a completed payment exactly when it carries a completed order or a
/// completed capture.
pub proof fn lemma_payment_success_kinds(event_type: Seq<char>)
    ensures
        is_payment_success_type(event_type) <==> (kind_of(event_type) == WebhookEventKind::OrderCompleted
            || kind_of(event_type) == WebhookEventKind::PaymentCaptureCompleted),
{
    reveal_strlit("CHECKOUT.ORDER.APPROVED");
    reveal_strlit("CHECKOUT.ORDER.COMPLETED");
    reveal_strlit("PAYMENT.CAPTURE.COMPLETED");
    assert("CHECKOUT.ORDER.APPROVED"@.len() == 23);
    assert("CHECKOUT.ORDER.COMPLETED"@.len() == 24);
    assert("PAYMENT.CAPTURE.COMPLETED"@.len() == 25);
}

/// An event is of a known kind only when its type is exactly one of the event types that
/// the client knows (`event_types`), each type giving its own kind; an event of any other
/// type, however close to a known one, is of the unknown kind.
pub proof fn law_kind_by_exact_event_type(event: WebhookEvent, k: WebhookEventKind)
    requires
        k == kind_of(event.event_type@),
    ensures
        k == WebhookEventKind::OrderApproved <==> event.event_type@ == event_types::ORDER_APPROVED@,
        k == WebhookEventKind::OrderCompleted <==> event.event_type@ == event_types::ORDER_COMPLETED@,
        k == WebhookEventKind::PaymentCaptureCompleted <==> event.event_type@
            == event_types::CAPTURE_COMPLETED@,
        k == WebhookEventKind::PaymentCaptureDenied <==> event.event_type@
            == event_types::CAPTURE_DENIED@,
        k == WebhookEventKind::PaymentCapturePending <==> event.event_type@
            == event_types::CAPTURE_PENDING@,
        k == WebhookEventKind::PaymentCaptureRefunded <==> event.event_type@
            == event_types::CAPTURE_REFUNDED@,
        k == WebhookEventKind::RefundCompleted <==> event.event_type@ == event_types::REFUND_COMPLETED@,
        k == WebhookEventKind::Unknown <==> {
            &&& event.event_type@ != event_types::ORDER_APPROVED@
            &&& event.event_type@ != event_types::ORDER_COMPLETED@
            &&& event.event_type@ != event_types::CAPTURE_COMPLETED@
            &&& event.event_type@ != event_types::CAPTURE_DENIED@
            &&& event.event_type@ != event_types::CAPTURE_PENDING@
            &&& event.event_type@ != event_types::CAPTURE_REFUNDED@
            &&& event.event_type@ != event_types::REFUND_COMPLETED@
        },
{
    reveal_strlit("CHECKOUT.ORDER.APPROVED");
    reveal_strlit("CHECKOUT.ORDER.COMPLETED");
    reveal_strlit("PAYMENT.CAPTURE.COMPLETED");
    reveal_strlit("PAYMENT.CAPTURE.DENIED");
    reveal_strlit("PAYMENT.CAPTURE.PENDING");
    reveal_strlit("PAYMENT.CAPTURE.REFUNDED");
    reveal_strlit("PAYMENT.REFUND.COMPLETED");
    let approved = event_types::ORDER_APPROVED@;
    let order_completed = event_types::ORDER_COMPLETED@;
    let capture_completed = event_types::CAPTURE_COMPLETED@;
    let denied = event_types::CAPTURE_DENIED@;
    let pending = event_types::CAPTURE_PENDING@;
    let refunded = event_types::CAPTURE_REFUNDED@;
    let refund_completed = event_types::REFUND_COMPLETED@;
    assert(approved.len() == 23 && pending.len() == 23);
    assert(order_completed.len() == 24 && refunded.len() == 24 && refund_completed.len() == 24);
    assert(capture_completed.len() == 25);
    assert(denied.len() == 22);
    assert(approved[0] != pending[0]);
    assert(order_completed[0] != refunded[0]);
    assert(order_completed[0] != refund_completed[0]);
    assert(refunded[8] != refund_completed[8]);
}

} // verus!
