use payrust::models::common::{Currency, Intent, Link, Money};
use payrust::models::order::{Order, OrderStatus, PurchaseAmount, PurchaseUnit};

fn make_purchase_unit(currency: &str, value: &str) -> PurchaseUnit {
    PurchaseUnit {
        reference_id: None,
        description: None,
        custom_id: None,
        invoice_id: None,
        soft_descriptor: None,
        amount: PurchaseAmount {
            currency_code: currency.to_string(),
            value: value.to_string(),
            breakdown: None,
        },
        items: None,
        shipping: None,
        payments: None,
    }
}

fn base_order(units: Vec<PurchaseUnit>) -> Order {
    Order {
        id: "id".into(),
        status: OrderStatus::Created,
        intent: Some(Intent::Capture),
        purchase_units: units,
        links: vec![],
        create_time: None,
        update_time: None,
    }
}

fn link(rel: &str, href: &str) -> Link {
    Link { href: href.to_string(), rel: rel.to_string(), method: None }
}

#[test]
fn currency_conflict_returns_none() {
    let units = vec![
        make_purchase_unit("USD", "10.00"),
        make_purchase_unit("EUR", "5.00"),
    ];
    let order = base_order(units);

    assert_eq!(order.currency(), None);
}

#[test]
fn currency_shared_by_all_units() {
    let order = base_order(vec![
        make_purchase_unit("EUR", "1.00"),
        make_purchase_unit("EUR", "2.00"),
        make_purchase_unit("EUR", "3.00"),
    ]);
    assert_eq!(order.currency(), Some("EUR"));
    assert_eq!(base_order(vec![]).currency(), None);
}

#[test]
fn links_are_found_by_role() {
    let mut order = base_order(vec![]);
    order.links = vec![
        link("self", "https://a/self"),
        link("payer-action", "https://a/pay"),
        link("approve", "https://a/approve"),
        link("capture", "https://a/capture"),
    ];
    assert_eq!(order.approve_url(), Some("https://a/pay"));
    assert_eq!(order.capture_url(), Some("https://a/capture"));
    assert_eq!(order.self_url(), Some("https://a/self"));
    let empty = base_order(vec![]);
    assert_eq!(empty.approve_url(), None);
    assert_eq!(empty.capture_url(), None);
    assert_eq!(empty.self_url(), None);
}

#[test]
fn status_checks() {
    let mut order = base_order(vec![]);
    assert!(!order.is_approved());
    order.status = OrderStatus::Approved;
    assert!(order.is_approved());
    assert!(!order.is_completed());
    order.status = OrderStatus::Completed;
    assert!(order.is_completed());
    let _ = Money::from_minor_units(1, Currency::USD);
}
