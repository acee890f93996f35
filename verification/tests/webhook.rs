use payrust::client::{
    basic_authorization, bearer_authorization, check_verification, expires_within_margin,
    prepare_webhook_verification, renewed_token, usable_token, usable_token_at,
    usable_token_with_seconds_left, AccessToken, Environment,
    RefundBuilder,
};
use payrust::error::{ApiErrorResponse, Error, ErrorDetail};
use payrust::models::common::{Currency, Money};
use payrust::models::webhook::{
    event_types, VerifyWebhookResponse, WebhookEvent, WebhookEventKind, WebhookHeaders,
};

fn event(event_type: &str, resource: serde_json::Value) -> WebhookEvent {
    WebhookEvent {
        id: "WH-1".into(),
        event_type: event_type.into(),
        event_version: None,
        create_time: "2024-01-01T00:00:00Z".into(),
        resource_type: "capture".into(),
        resource_version: None,
        summary: None,
        resource,
        links: vec![],
    }
}

fn signature_headers() -> Vec<(&'static str, &'static str)> {
    vec![
        ("PayPal-Transmission-Id", "tid"),
        ("PAYPAL-TRANSMISSION-TIME", "ttime"),
        ("paypal-cert-url", "https://cert"),
        ("Paypal-Auth-Algo", "SHA256withRSA"),
        ("paypal-transmission-sig", "sig"),
        ("content-type", "application/json"),
    ]
}

#[test]
fn event_kinds_follow_event_types() {
    let v = serde_json::Value::Null;
    assert_eq!(event(event_types::ORDER_APPROVED, v.clone()).kind(), WebhookEventKind::OrderApproved);
    assert_eq!(event(event_types::ORDER_COMPLETED, v.clone()).kind(), WebhookEventKind::OrderCompleted);
    assert_eq!(event(event_types::CAPTURE_COMPLETED, v.clone()).kind(), WebhookEventKind::PaymentCaptureCompleted);
    assert_eq!(event(event_types::CAPTURE_DENIED, v.clone()).kind(), WebhookEventKind::PaymentCaptureDenied);
    assert_eq!(event(event_types::CAPTURE_PENDING, v.clone()).kind(), WebhookEventKind::PaymentCapturePending);
    assert_eq!(event(event_types::CAPTURE_REFUNDED, v.clone()).kind(), WebhookEventKind::PaymentCaptureRefunded);
    assert_eq!(event(event_types::REFUND_COMPLETED, v.clone()).kind(), WebhookEventKind::RefundCompleted);
    assert_eq!(event("BILLING.PLAN.CREATED", v).kind(), WebhookEventKind::Unknown);
}

#[test]
fn payment_success_events() {
    let v = serde_json::Value::Null;
    assert!(event("CHECKOUT.ORDER.COMPLETED", v.clone()).is_payment_success());
    assert!(event("PAYMENT.CAPTURE.COMPLETED", v.clone()).is_payment_success());
    assert!(!event("PAYMENT.CAPTURE.DENIED", v.clone()).is_payment_success());
    assert!(!event("checkout.order.completed", v).is_payment_success());
}

#[test]
fn order_id_reads_the_resource_id() {
    let e = event("X", serde_json::from_str::<serde_json::Value>(r#"{"id":"5O190127TN364715T","status":"COMPLETED"}"#).unwrap());
    assert_eq!(e.order_id(), Some("5O190127TN364715T"));
    let none = event("X", serde_json::Value::Null);
    assert_eq!(none.order_id(), None);
}

#[test]
fn headers_are_matched_case_insensitively() {
    let h = WebhookHeaders::from_headers(&signature_headers()).unwrap();
    assert_eq!(h.transmission_id, "tid");
    assert_eq!(h.transmission_time, "ttime");
    assert_eq!(h.cert_url, "https://cert");
    assert_eq!(h.auth_algo, "SHA256withRSA");
    assert_eq!(h.transmission_sig, "sig");
}

#[test]
fn missing_header_gives_none() {
    let mut headers = signature_headers();
    headers.remove(4);
    assert!(WebhookHeaders::from_headers(&headers).is_none());
}

#[test]
fn later_header_wins() {
    let mut headers = signature_headers();
    headers.push(("PAYPAL-TRANSMISSION-ID", "second"));
    assert_eq!(WebhookHeaders::from_headers(&headers).unwrap().transmission_id, "second");
}

#[test]
fn verification_status() {
    assert!(VerifyWebhookResponse { verification_status: "SUCCESS".into() }.is_success());
    assert!(!VerifyWebhookResponse { verification_status: "FAILURE".into() }.is_success());
    assert!(check_verification(&VerifyWebhookResponse { verification_status: "SUCCESS".into() }).is_ok());
    match check_verification(&VerifyWebhookResponse { verification_status: "FAILURE".into() }) {
        Err(Error::WebhookVerification(m)) => assert_eq!(m, "Signature verification failed"),
        _ => panic!("expected a verification error"),
    }
}

#[test]
fn verification_request_body() {
    let body = r#"{"id":"WH-1"}"#;
    let v = prepare_webhook_verification(body, &signature_headers(), Some("WID")).unwrap();
    let expected = format!(
        r#"{{"webhook_id":"{}",
            "transmission_id": "{}",
            "transmission_time": "{}",
            "cert_url": "{}",
            "auth_algo": "{}",
            "transmission_sig": "{}",
            "webhook_event":{}}}"#,
        "WID", "tid", "ttime", "https://cert", "SHA256withRSA", "sig", body
    );
    assert_eq!(v.request_body, expected);
    assert_eq!(v.event["id"], "WH-1");
}

#[test]
fn token_use_by_seconds_left() {
    let token = || Some(AccessToken { token: "T".into(), expires_at: std::time::Instant::now() });
    assert_eq!(usable_token_with_seconds_left(&token(), 60), Some("T".to_string()));
    assert_eq!(usable_token_with_seconds_left(&token(), 59), None);
    assert_eq!(usable_token_with_seconds_left(&None, 1000), None);
    let now = std::time::Instant::now();
    let later = AccessToken { token: "L".into(), expires_at: now + std::time::Duration::from_secs(61) };
    assert!(!later.is_expired_at(now));
    assert!(later.is_expired_at(now + std::time::Duration::from_secs(2)));
    assert_eq!(usable_token_at(&Some(later), now), Some("L".to_string()));
}

#[test]
fn verification_errors_in_order() {
    match prepare_webhook_verification("not json", &[], None) {
        Err(Error::WebhookVerification(m)) => assert_eq!(m, "Missing required headers"),
        _ => panic!("expected missing headers"),
    }
    match prepare_webhook_verification("not json", &signature_headers(), None) {
        Err(Error::WebhookVerification(m)) => assert_eq!(m, "Webhook ID not set"),
        _ => panic!("expected missing webhook id"),
    }
    match prepare_webhook_verification("not json", &signature_headers(), Some("WID")) {
        Err(Error::Json(_)) => {}
        _ => panic!("expected a JSON error"),
    }
}

#[test]
fn environment_addresses() {
    assert_eq!(Environment::Sandbox.base_url(), "https://api-m.sandbox.paypal.com");
    assert_eq!(Environment::Live.base_url(), "https://api-m.paypal.com");
    assert_eq!(Environment::Live.token_url(), "https://api-m.paypal.com/v1/oauth2/token");
    assert_eq!(Environment::Live.orders_url(), "https://api-m.paypal.com/v2/checkout/orders");
    assert_eq!(Environment::Sandbox.order_url("O1"), "https://api-m.sandbox.paypal.com/v2/checkout/orders/O1");
    assert_eq!(Environment::Live.capture_url("O1"), "https://api-m.paypal.com/v2/checkout/orders/O1/capture");
    assert_eq!(Environment::Live.refund_url("C1"), "https://api-m.paypal.com/v2/payments/captures/C1/refund");
    assert_eq!(Environment::Live.client_token_url(), "https://api-m.paypal.com/v1/identity/generate-token");
    assert_eq!(
        Environment::Live.verify_webhook_url(),
        "https://api-m.paypal.com/v1/notifications/verify-webhook-signature"
    );
}

#[test]
fn authorization_headers() {
    assert_eq!(basic_authorization("id", "secret"), "Basic aWQ6c2VjcmV0");
    let ok = bearer_authorization("A21AA").unwrap();
    assert_eq!(ok, "Bearer A21AA");
    match bearer_authorization("bad\ntoken") {
        Err(Error::Config(m)) => assert_eq!(m, "Invalid token format"),
        _ => panic!("expected a config error"),
    }
}

#[test]
fn token_renewal() {
    assert!(expires_within_margin(0));
    assert!(expires_within_margin(59));
    assert!(!expires_within_margin(60));
    let fresh = AccessToken {
        token: "T".into(),
        expires_at: std::time::Instant::now() + std::time::Duration::from_secs(3600),
    };
    assert!(!fresh.is_expired());
    let stale = AccessToken { token: "S".into(), expires_at: std::time::Instant::now() };
    assert!(stale.is_expired());
    assert_eq!(usable_token(&Some(fresh)), Some("T".to_string()));
    assert_eq!(usable_token(&Some(stale)), None);
    assert_eq!(usable_token(&None), None);
    assert_eq!(renewed_token(&Some(AccessToken { token: "R".into(), expires_at: std::time::Instant::now() })).unwrap(), "R");
    assert!(matches!(renewed_token(&None), Err(Error::TokenExpired)));
}

#[test]
fn api_errors() {
    let auth = ApiErrorResponse {
        name: None,
        message: None,
        debug_id: None,
        details: vec![],
        error: Some("invalid_client".into()),
        error_description: Some("Client Authentication failed".into()),
    };
    match Error::from(auth) {
        Error::Auth(m) => assert_eq!(m, "Client Authentication failed"),
        _ => panic!("expected auth"),
    }
    let code_only = ApiErrorResponse {
        name: None,
        message: None,
        debug_id: None,
        details: vec![],
        error: Some("invalid_client".into()),
        error_description: None,
    };
    assert!(matches!(Error::from_api_response(code_only), Error::Auth(m) if m == "invalid_client"));
    let api = ApiErrorResponse {
        name: Some("UNPROCESSABLE_ENTITY".into()),
        message: None,
        debug_id: Some("dbg".into()),
        details: vec![ErrorDetail {
            field: Some("/purchase_units".into()),
            value: None,
            issue: "INVALID".into(),
            description: Some("bad".into()),
        }],
        error: None,
        error_description: None,
    };
    match Error::from(api) {
        Error::Api { message, debug_id, details } => {
            assert_eq!(message, "Unknown error");
            assert_eq!(debug_id.as_deref(), Some("dbg"));
            assert_eq!(details.len(), 1);
            assert_eq!(details[0].to_display_string(), "[/purchase_units] INVALID - bad");
        }
        _ => panic!("expected api"),
    }
    let plain = ErrorDetail { field: None, value: None, issue: "X".into(), description: None };
    assert_eq!(plain.to_display_string(), "X");
}

#[test]
fn refund_requests() {
    let full = RefundBuilder::new("CAP").note("sorry").invoice_id("INV").full_request();
    assert!(full.amount.is_none());
    assert_eq!(full.note_to_payer.as_deref(), Some("sorry"));
    assert_eq!(full.invoice_id.as_deref(), Some("INV"));
    let part = RefundBuilder::new("CAP")
        .partial(Money::from_minor_units(500, Currency::USD))
        .request();
    assert_eq!(part.amount.unwrap().value, "5.00");
    assert!(part.note_to_payer.is_none());
}
