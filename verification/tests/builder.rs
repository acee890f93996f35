use payrust::api::order::{OrderBuilder, ScaledAmount};
use payrust::error::Error;
use payrust::models::common::{Currency, Intent, LandingPage, Money, ShippingPreference, UserAction};
use payrust::models::order::Item;

/// The two roundings of a float amount that the builder holds.
fn scaled(amount: f64) -> ScaledAmount {
    ScaledAmount {
        whole: (amount * 1.0).round() as i64,
        hundredths: (amount * 100.0).round() as i64,
    }
}

/// Money written with the currency's decimals, as the original float formatting does.
fn money(amount: f64, currency: Currency) -> Money {
    let value = if currency.decimal_places() == 0 {
        format!("{:.0}", amount)
    } else {
        format!("{:.*}", currency.decimal_places() as usize, amount)
    };
    Money { currency_code: currency.as_str().to_string(), value }
}

fn make_item(name: &str, qty: u32, unit_price: f64, currency: Currency) -> Item {
    Item {
        name: name.to_string(),
        quantity: qty.to_string(),
        unit_amount: money(unit_price, currency),
        description: None,
        sku: None,
        category: None,
        tax: None,
    }
}

fn price_of(item: &Item) -> Option<ScaledAmount> {
    item.unit_amount.value.parse::<f64>().ok().map(scaled)
}

#[test]
fn computes_item_total_minor_units() {
    let currency = Currency::USD;
    let decimals = currency.decimal_places();
    let items = vec![
        make_item("A", 2, 10.0, currency),
        make_item("B", 1, 5.5, currency),
    ];
    let prices: Vec<_> = items.iter().map(price_of).collect();

    let total = OrderBuilder::compute_items_total_units(&items, &prices, decimals).unwrap();
    assert_eq!(total, 2550);
}

#[test]
fn item_quantity_parse_error_surfaces() {
    let currency = Currency::USD;
    let decimals = currency.decimal_places();
    let mut item = make_item("A", 1, 10.0, currency);
    item.quantity = "bad".to_string();
    let prices = vec![price_of(&item)];

    let err = OrderBuilder::compute_items_total_units(&[item], &prices, decimals).unwrap_err();
    match err {
        Error::Config(msg) => assert_eq!(msg, "Invalid item quantity"),
        _ => panic!("expected config error"),
    }
}

#[test]
fn item_amount_parse_error_surfaces() {
    let item = make_item("A", 1, 10.0, Currency::USD);
    let err = OrderBuilder::compute_items_total_units(&[item], &[None], 2).unwrap_err();
    match err {
        Error::Config(msg) => assert_eq!(msg, "Invalid item amount"),
        _ => panic!("expected config error"),
    }
}

#[test]
fn first_unreadable_item_decides_the_error() {
    let good = make_item("A", 1, 1.0, Currency::USD);
    let mut bad = make_item("B", 1, 1.0, Currency::USD);
    bad.quantity = "-1".to_string();
    let err = OrderBuilder::compute_items_total_units(&[good, bad], &[None, Some(scaled(1.0))], 2)
        .unwrap_err();
    match err {
        Error::Config(msg) => assert_eq!(msg, "Invalid item amount"),
        _ => panic!("expected config error"),
    }
}

#[test]
fn builder_defaults() {
    let b = OrderBuilder::new();
    assert_eq!(b.intent, Intent::Capture);
    assert_eq!(b.currency, Currency::USD);
    assert_eq!(b.landing_page, LandingPage::Login);
    assert_eq!(b.shipping_preference, ShippingPreference::NoShipping);
    assert_eq!(b.user_action, UserAction::PayNow);
    assert!(b.items.is_empty());
}

#[test]
fn build_without_items_uses_the_amount() {
    let req = OrderBuilder::new()
        .amount(scaled(29.99), Currency::USD)
        .description("Monthly")
        .custom_id("order-1")
        .urls("https://e/ok", "https://e/cancel")
        .build_request()
        .unwrap();
    assert_eq!(req.intent, Intent::Capture);
    assert_eq!(req.purchase_units.len(), 1);
    let pu = &req.purchase_units[0];
    assert_eq!(pu.amount.currency_code, "USD");
    assert_eq!(pu.amount.value, "29.99");
    assert!(pu.amount.breakdown.is_none());
    assert!(pu.items.is_none());
    assert_eq!(pu.description.as_deref(), Some("Monthly"));
    assert_eq!(pu.custom_id.as_deref(), Some("order-1"));
    let ctx = req.application_context.as_ref().unwrap();
    assert_eq!(ctx.return_url.as_deref(), Some("https://e/ok"));
    assert_eq!(ctx.cancel_url.as_deref(), Some("https://e/cancel"));
    assert_eq!(ctx.shipping_preference, Some(ShippingPreference::NoShipping));
    assert_eq!(ctx.user_action, Some(UserAction::PayNow));
}

#[test]
fn build_with_items_sums_the_breakdown() {
    let c = Currency::USD;
    let b = OrderBuilder::new().amount(scaled(1.0), c);
    let b = b.item("A", 2, money(10.0, c), scaled(10.0));
    let b = b.item("B", 1, money(5.5, c), scaled(5.5));
    let req = b
        .shipping(scaled(4.5))
        .tax(scaled(2.0))
        .discount(scaled(1.0))
        .require_shipping()
        .build_request()
        .unwrap();
    let pu = &req.purchase_units[0];
    assert_eq!(pu.amount.value, "31.00");
    let bd = pu.amount.breakdown.as_ref().unwrap();
    assert_eq!(bd.item_total.as_ref().unwrap().value, "25.50");
    assert_eq!(bd.shipping.as_ref().unwrap().value, "4.50");
    assert_eq!(bd.tax_total.as_ref().unwrap().value, "2.00");
    assert_eq!(bd.discount.as_ref().unwrap().value, "1.00");
    assert!(bd.handling.is_none());
    assert_eq!(pu.items.as_ref().unwrap().len(), 2);
    assert_eq!(pu.items.as_ref().unwrap()[0].quantity, "2");
    assert_eq!(
        req.application_context.as_ref().unwrap().shipping_preference,
        Some(ShippingPreference::GetFromFile)
    );
}

#[test]
fn currency_is_read_when_building() {
    let req = OrderBuilder::new()
        .shipping(scaled(5.0))
        .amount(scaled(1234.0), Currency::JPY)
        .build_request()
        .unwrap();
    let pu = &req.purchase_units[0];
    assert_eq!(pu.amount.currency_code, "JPY");
    assert_eq!(pu.amount.value, "1234");
    assert_eq!(pu.amount.breakdown.as_ref().unwrap().shipping.as_ref().unwrap().value, "5");
}

#[test]
fn zero_extras_are_left_out_of_the_breakdown() {
    let c = Currency::EUR;
    let req = OrderBuilder::new()
        .amount(scaled(3.0), c)
        .item_detailed("A", 3, money(1.0, c), scaled(1.0), Some("d".into()), Some("sku".into()), None)
        .build_request()
        .unwrap();
    let pu = &req.purchase_units[0];
    assert_eq!(pu.amount.value, "3.00");
    let bd = pu.amount.breakdown.as_ref().unwrap();
    assert!(bd.shipping.is_none() && bd.tax_total.is_none() && bd.discount.is_none());
    let item = &pu.items.as_ref().unwrap()[0];
    assert_eq!(item.description.as_deref(), Some("d"));
    assert_eq!(item.sku.as_deref(), Some("sku"));
}

#[test]
fn setters_keep_what_they_do_not_set() {
    let b = OrderBuilder::new()
        .intent(Intent::Authorize)
        .invoice_id("inv")
        .soft_descriptor("SHOP")
        .brand_name("Brand")
        .locale("en-US")
        .landing_page(LandingPage::GuestCheckout)
        .user_action(UserAction::Continue)
        .shipping_preference(ShippingPreference::SetProvidedAddress)
        .digital_goods();
    assert_eq!(b.intent, Intent::Authorize);
    assert_eq!(b.invoice_id.as_deref(), Some("inv"));
    assert_eq!(b.soft_descriptor.as_deref(), Some("SHOP"));
    assert_eq!(b.brand_name.as_deref(), Some("Brand"));
    assert_eq!(b.locale.as_deref(), Some("en-US"));
    assert_eq!(b.landing_page, LandingPage::GuestCheckout);
    assert_eq!(b.user_action, UserAction::Continue);
    assert_eq!(b.shipping_preference, ShippingPreference::NoShipping);
    let req = b.build_request().unwrap();
    assert_eq!(req.intent, Intent::Authorize);
    assert_eq!(req.purchase_units[0].amount.value, "0.00");
}
