use vstd::prelude::*;
use crate::models::common::{Intent, LandingPage, Link, Money, ShippingPreference, UserAction};
use crate::text::str_eq;

verus! {

/// The state of an order.
#[derive(Debug, Clone, Copy, PartialEq, Eq, Structural)]
pub enum OrderStatus {
    Created,
    Approved,
    Saved,
    Voided,
    Completed,
    PayerActionRequired,
}

/// The body of a create-order call.
#[derive(Debug)]
pub struct CreateOrderRequest {
    pub intent: Intent,
    pub purchase_units: Vec<PurchaseUnit>,
    pub payment_source: Option<PaymentSource>,
    pub application_context: Option<ApplicationContext>,
}

/// One purchase of an order: its amount and what it is made of.
#[derive(Debug)]
pub struct PurchaseUnit {
    pub reference_id: Option<String>,
    pub description: Option<String>,
    pub custom_id: Option<String>,
    pub invoice_id: Option<String>,
    pub soft_descriptor: Option<String>,
    pub amount: PurchaseAmount,
    pub items: Option<Vec<Item>>,
    pub shipping: Option<Shipping>,
    pub payments: Option<PaymentCollection>,
}

/// The total of a purchase unit and, optionally, how it is made up.
#[derive(Debug)]
pub struct PurchaseAmount {
    pub currency_code: String,
    pub value: String,
    pub breakdown: Option<AmountBreakdown>,
}

/// The parts that make up a purchase amount.
#[derive(Debug)]
pub struct AmountBreakdown {
    pub item_total: Option<Money>,
    pub shipping: Option<Money>,
    pub handling: Option<Money>,
    pub tax_total: Option<Money>,
    pub insurance: Option<Money>,
    pub shipping_discount: Option<Money>,
    pub discount: Option<Money>,
}

/// A line item of a purchase unit.
#[derive(Debug, Clone)]
pub struct Item {
    pub name: String,
    pub quantity: String,
    pub unit_amount: Money,
    pub description: Option<String>,
    pub sku: Option<String>,
    pub category: Option<ItemCategory>,
    pub tax: Option<Money>,
}

/// The kind of goods an item is.
#[derive(Debug, Clone, Copy, PartialEq, Eq, Structural)]
pub enum ItemCategory {
    DigitalGoods,
    PhysicalGoods,
    Donation,
}

/// Where a purchase unit is shipped.
#[derive(Debug)]
pub struct Shipping {
    pub name: Option<ShippingName>,
    pub address: Option<Address>,
}

/// The name of the recipient of a shipment.
#[derive(Debug, Clone)]
pub struct ShippingName {
    pub full_name: String,
}

/// A postal address.
#[derive(Debug, Clone)]
pub struct Address {
    pub address_line_1: Option<String>,
    pub address_line_2: Option<String>,
    pub admin_area_1: Option<String>,
    pub admin_area_2: Option<String>,
    pub postal_code: Option<String>,
    pub country_code: String,
}

/// How the payer's experience at PayPal is set up.
#[derive(Debug)]
pub struct ApplicationContext {
    pub brand_name: Option<String>,
    pub locale: Option<String>,
    pub landing_page: Option<LandingPage>,
    pub shipping_preference: Option<ShippingPreference>,
    pub user_action: Option<UserAction>,
    pub return_url: Option<String>,
    pub cancel_url: Option<String>,
}

/// The payment source of an order.
#[derive(Debug)]
pub struct PaymentSource {
    pub paypal: Option<PayPalWallet>,
}

/// A PayPal wallet payment source.
#[derive(Debug)]
pub struct PayPalWallet {
    pub experience_context: Option<ExperienceContext>,
}

/// How the payer's experience with a wallet is set up.
#[derive(Debug)]
pub struct ExperienceContext {
    pub brand_name: Option<String>,
    pub shipping_preference: Option<ShippingPreference>,
    pub landing_page: Option<LandingPage>,
    pub user_action: Option<UserAction>,
    pub return_url: Option<String>,
    pub cancel_url: Option<String>,
}

/// An order as the API returns it.
#[derive(Debug)]
pub struct Order {
    pub id: String,
    pub status: OrderStatus,
    pub intent: Option<Intent>,
    pub purchase_units: Vec<PurchaseUnit>,
    pub links: Vec<Link>,
    pub create_time: Option<String>,
    pub update_time: Option<String>,
}

/// The `href` of the first link in `links` whose `rel` satisfies `wanted`.
pub open spec fn first_href(links: Seq<Link>, wanted: spec_fn(Seq<char>) -> bool) -> Option<Seq<char>>
    decreases links.len(),
{
    if links.len() == 0 {
        None
    } else if wanted(links[0].rel@) {
        Some(links[0].href@)
    } else {
        first_href(links.drop_first(), wanted)
    }
}

/// The roles of the link where the payer approves the order.
pub open spec fn is_approve_rel(rel: Seq<char>) -> bool {
    rel == "approve"@ || rel == "payer-action"@
}

pub open spec fn is_capture_rel(rel: Seq<char>) -> bool {
    rel == "capture"@
}

pub open spec fn is_self_rel(rel: Seq<char>) -> bool {
    rel == "self"@
}

/// Whether every purchase unit has the currency code `code`.
pub open spec fn all_in_currency(units: Seq<PurchaseUnit>, code: Seq<char>) -> bool {
    forall|i: int| 0 <= i < units.len() ==> (#[trigger] units[i]).amount.currency_code@ == code
}

impl Order {
    /// The `href` of the first link whose `rel` is one of two given roles.
    fn find_href<'a>(&'a self, rel_a: &str, rel_b: &str) -> (r: Option<&'a str>)
        ensures
            r matches Some(h) ==> first_href(self.links@, |rel: Seq<char>| rel == rel_a@ || rel == rel_b@)
                == Some(h@),
            r is None ==> first_href(self.links@, |rel: Seq<char>| rel == rel_a@ || rel == rel_b@)
                is None,
    {
        let ghost wanted = |rel: Seq<char>| rel == rel_a@ || rel == rel_b@;
        let n = self.links.len();
        let mut i: usize = 0;
        assert(self.links@.skip(0) == self.links@);
        while i < n
            invariant
                n == self.links@.len(),
                i <= n,
                wanted == (|rel: Seq<char>| rel == rel_a@ || rel == rel_b@),
                first_href(self.links@, wanted) == first_href(self.links@.skip(i as int), wanted),
            decreases n - i,
        {
            let link = &self.links[i];
            assert(self.links@.skip(i as int).drop_first() == self.links@.skip(i + 1));
            assert(self.links@.skip(i as int)[0] == self.links@[i as int]);
            if str_eq(link.rel.as_str(), rel_a) || str_eq(link.rel.as_str(), rel_b) {
                return Some(link.href.as_str());
            }
            i += 1;
        }
        None
    }

    /// The link where the payer approves the order: the first link whose `rel` is
    /// `approve` or `payer-action`.
    pub fn approve_url(&self) -> (r: Option<&str>)
        ensures
            r matches Some(h) ==> first_href(self.links@, |rel: Seq<char>| is_approve_rel(rel)) == Some(h@),
            r is None ==> first_href(self.links@, |rel: Seq<char>| is_approve_rel(rel)) is None,
    {
        proof {
            reveal_strlit("approve");
            reveal_strlit("payer-action");
        }
        let r = self.find_href("approve", "payer-action");
        assert((|rel: Seq<char>| rel == "approve"@ || rel == "payer-action"@) =~= (|rel: Seq<char>|
            is_approve_rel(rel)));
        r
    }

    /// The first link whose `rel` is `capture`.
    pub fn capture_url(&self) -> (r: Option<&str>)
        ensures
            r matches Some(h) ==> first_href(self.links@, |rel: Seq<char>| is_capture_rel(rel)) == Some(h@),
            r is None ==> first_href(self.links@, |rel: Seq<char>| is_capture_rel(rel)) is None,
    {
        let r = self.find_href("capture", "capture");
        assert((|rel: Seq<char>| rel == "capture"@ || rel == "capture"@) =~= (|rel: Seq<char>|
            is_capture_rel(rel)));
        r
    }

    /// The first link whose `rel` is `self`.
    pub fn self_url(&self) -> (r: Option<&str>)
        ensures
            r matches Some(h) ==> first_href(self.links@, |rel: Seq<char>| is_self_rel(rel)) == Some(h@),
            r is None ==> first_href(self.links@, |rel: Seq<char>| is_self_rel(rel)) is None,
    {
        let r = self.find_href("self", "self");
        assert((|rel: Seq<char>| rel == "self"@ || rel == "self"@) =~= (|rel: Seq<char>|
            is_self_rel(rel)));
        r
    }

    pub fn is_approved(&self) -> (r: bool)
        ensures
            r == (self.status == OrderStatus::Approved),
    {
        self.status == OrderStatus::Approved
    }

    pub fn is_completed(&self) -> (r: bool)
        ensures
            r == (self.status == OrderStatus::Completed),
    {
        self.status == OrderStatus::Completed
    }

    /// The currency of the order: the code shared by all its purchase units; `None` when it
    /// has none or they differ.
    pub fn currency(&self) -> (r: Option<&str>)
        ensures
            r is Some <==> (self.purchase_units@.len() > 0 && all_in_currency(
                self.purchase_units@,
                self.purchase_units@[0].amount.currency_code@,
            )),
            r matches Some(c) ==> c@ == self.purchase_units@[0].amount.currency_code@,
    {
        let n = self.purchase_units.len();
        if n == 0 {
            return None;
        }
        let code = self.purchase_units[0].amount.currency_code.as_str();
        let mut i: usize = 1;
        while i < n
            invariant
                n == self.purchase_units@.len(),
                1 <= i <= n,
                code@ == self.purchase_units@[0].amount.currency_code@,
                forall|j: int| 0 <= j < i ==> (#[trigger] self.purchase_units@[j]).amount.currency_code@
                    == code@,
            decreases n - i,
        {
            if !str_eq(self.purchase_units[i].amount.currency_code.as_str(), code) {
                return None;
            }
            i += 1;
        }
        Some(code)
    }
}

/// The captures, refunds and authorizations of a purchase unit.
#[derive(Debug)]
pub struct PaymentCollection {
    pub captures: Vec<Capture>,
    pub refunds: Vec<Refund>,
    pub authorizations: Vec<Authorization>,
}

/// A captured payment.
#[derive(Debug)]
pub struct Capture {
    pub id: String,
    pub status: CaptureStatus,
    pub amount: Option<Money>,
    pub create_time: Option<String>,
    pub update_time: Option<String>,
    pub links: Vec<Link>,
}

/// The state of a capture.
#[derive(Debug, Clone, Copy, PartialEq, Eq, Structural)]
pub enum CaptureStatus {
    Completed,
    Declined,
    PartiallyRefunded,
    Pending,
    Refunded,
    Failed,
}

/// A refund of a capture.
#[derive(Debug)]
pub struct Refund {
    pub id: String,
    pub status: RefundStatus,
    pub amount: Option<Money>,
    pub create_time: Option<String>,
    pub links: Vec<Link>,
}

/// The state of a refund.
#[derive(Debug, Clone, Copy, PartialEq, Eq, Structural)]
pub enum RefundStatus {
    Cancelled,
    Failed,
    Pending,
    Completed,
}

/// An authorized payment.
#[derive(Debug)]
pub struct Authorization {
    pub id: String,
    pub status: AuthorizationStatus,
    pub amount: Option<Money>,
    pub create_time: Option<String>,
    pub expiration_time: Option<String>,
    pub links: Vec<Link>,
}

/// The state of an authorization.
#[derive(Debug, Clone, Copy, PartialEq, Eq, Structural)]
pub enum AuthorizationStatus {
    Created,
    Captured,
    Denied,
    Expired,
    PartiallyCaptured,
    Voided,
    Pending,
}

/// The body of a capture call.
#[derive(Debug)]
pub struct CaptureOrderRequest {
    pub payment_source: Option<PaymentSource>,
}

/// The body of a refund call; without an amount the whole capture is refunded.
#[derive(Debug)]
pub struct RefundRequest {
    pub amount: Option<Money>,
    pub note_to_payer: Option<String>,
    pub invoice_id: Option<String>,
}

impl Default for PurchaseAmount {
    fn default() -> (r: PurchaseAmount)
        ensures
            r.currency_code@.len() == 0 && r.value@.len() == 0 && r.breakdown is None,
    {
        PurchaseAmount { currency_code: String::new(), value: String::new(), breakdown: None }
    }
}

impl Default for PurchaseUnit {
    fn default() -> (r: PurchaseUnit)
        ensures
            r.reference_id is None && r.description is None && r.custom_id is None,
            r.invoice_id is None && r.soft_descriptor is None,
            r.amount.currency_code@.len() == 0 && r.amount.value@.len() == 0,
            r.amount.breakdown is None,
            r.items is None && r.shipping is None && r.payments is None,
    {
        PurchaseUnit {
            reference_id: None,
            description: None,
            custom_id: None,
            invoice_id: None,
            soft_descriptor: None,
            amount: PurchaseAmount::default(),
            items: None,
            shipping: None,
            payments: None,
        }
    }
}

impl Default for AmountBreakdown {
    fn default() -> (r: AmountBreakdown)
        ensures
            r.item_total is None && r.shipping is None && r.handling is None,
            r.tax_total is None && r.insurance is None && r.shipping_discount is None,
            r.discount is None,
    {
        AmountBreakdown {
            item_total: None,
            shipping: None,
            handling: None,
            tax_total: None,
            insurance: None,
            shipping_discount: None,
            discount: None,
        }
    }
}

impl Default for Shipping {
    fn default() -> (r: Shipping)
        ensures
            r.name is None && r.address is None,
    {
        Shipping { name: None, address: None }
    }
}

impl Default for Address {
    fn default() -> (r: Address)
        ensures
            r.address_line_1 is None && r.address_line_2 is None,
            r.admin_area_1 is None && r.admin_area_2 is None,
            r.postal_code is None && r.country_code@.len() == 0,
    {
        Address {
            address_line_1: None,
            address_line_2: None,
            admin_area_1: None,
            admin_area_2: None,
            postal_code: None,
            country_code: String::new(),
        }
    }
}

impl Default for ApplicationContext {
    fn default() -> (r: ApplicationContext)
        ensures
            r.brand_name is None && r.locale is None && r.landing_page is None,
            r.shipping_preference is None && r.user_action is None,
            r.return_url is None && r.cancel_url is None,
    {
        ApplicationContext {
            brand_name: None,
            locale: None,
            landing_page: None,
            shipping_preference: None,
            user_action: None,
            return_url: None,
            cancel_url: None,
        }
    }
}

impl Default for PayPalWallet {
    fn default() -> (r: PayPalWallet)
        ensures
            r.experience_context is None,
    {
        PayPalWallet { experience_context: None }
    }
}

impl Default for ExperienceContext {
    fn default() -> (r: ExperienceContext)
        ensures
            r.brand_name is None && r.shipping_preference is None && r.landing_page is None,
            r.user_action is None && r.return_url is None && r.cancel_url is None,
    {
        ExperienceContext {
            brand_name: None,
            shipping_preference: None,
            landing_page: None,
            user_action: None,
            return_url: None,
            cancel_url: None,
        }
    }
}

impl Default for CaptureOrderRequest {
    fn default() -> (r: CaptureOrderRequest)
        ensures
            r.payment_source is None,
    {
        CaptureOrderRequest { payment_source: None }
    }
}

/// `first_href` finds the first link whose `rel` is wanted: with an answer, some link has
/// a wanted `rel` and that `href`, and no link before it has a wanted `rel`; with none, no
/// link has a wanted `rel`.
pub proof fn lemma_first_href_is_first_match(links: Seq<Link>, wanted: spec_fn(Seq<char>) -> bool)
    ensures
        first_href(links, wanted) matches Some(h) ==> exists|i: int|
            0 <= i < links.len() && wanted(#[trigger] links[i].rel@) && links[i].href@ == h
                && forall|j: int| 0 <= j < i ==> !wanted(#[trigger] links[j].rel@),
        first_href(links, wanted) is None ==> forall|i: int|
            0 <= i < links.len() ==> !wanted(#[trigger] links[i].rel@),
    decreases links.len(),
{
    if links.len() > 0 {
        let rest = links.drop_first();
        lemma_first_href_is_first_match(rest, wanted);
        assert forall|i: int| 0 < i < links.len() implies links[i] == rest[i - 1] by {}
        if wanted(links[0].rel@) {
            assert(forall|j: int| 0 <= j < 0 ==> !wanted(#[trigger] links[j].rel@));
        } else if first_href(rest, wanted) is Some {
            let h = first_href(rest, wanted)->0;
            let k = choose|k: int|
                0 <= k < rest.len() && wanted(#[trigger] rest[k].rel@) && rest[k].href@ == h
                    && forall|j: int| 0 <= j < k ==> !wanted(#[trigger] rest[j].rel@);
            assert(links[k + 1] == rest[k]);
            assert forall|j: int| 0 <= j < k + 1 implies !wanted(#[trigger] links[j].rel@) by {
                if j > 0 {
                    assert(links[j] == rest[j - 1]);
                }
            }
        } else {
            assert forall|i: int| 0 <= i < links.len() implies !wanted(#[trigger] links[i].rel@) by {
                if i > 0 {
                    assert(links[i] == rest[i - 1]);
                }
            }
        }
    }
}

/// The approval link of an order is the `href` of its first link whose `rel` is exactly
/// `approve` or `payer-action`: a link with any other `rel` is never given, and there is no
/// approval link when no link has one of these two.
pub proof fn law_approve_url_is_first_approval_link(order: Order, r: Option<&str>)
    requires
        r matches Some(h) ==> first_href(order.links@, |rel: Seq<char>| is_approve_rel(rel)) == Some(
            h@,
        ),
        r is None ==> first_href(order.links@, |rel: Seq<char>| is_approve_rel(rel)) is None,
    ensures
        r matches Some(h) ==> exists|i: int|
            0 <= i < order.links@.len() && (#[trigger] order.links@[i].rel@ == "approve"@
                || order.links@[i].rel@ == "payer-action"@) && order.links@[i].href@ == h@
                && forall|j: int|
                0 <= j < i ==> #[trigger] order.links@[j].rel@ != "approve"@ && order.links@[j].rel@
                    != "payer-action"@,
        r is None ==> forall|i: int|
            0 <= i < order.links@.len() ==> #[trigger] order.links@[i].rel@ != "approve"@
                && order.links@[i].rel@ != "payer-action"@,
{
    lemma_first_href_is_first_match(order.links@, |rel: Seq<char>| is_approve_rel(rel));
}

/// The capture link of an order is the `href` of its first link whose `rel` is exactly
/// `capture`; there is none when no link has that `rel`.
pub proof fn law_capture_url_is_first_capture_link(order: Order, r: Option<&str>)
    requires
        r matches Some(h) ==> first_href(order.links@, |rel: Seq<char>| is_capture_rel(rel)) == Some(
            h@,
        ),
        r is None ==> first_href(order.links@, |rel: Seq<char>| is_capture_rel(rel)) is None,
    ensures
        r matches Some(h) ==> exists|i: int|
            0 <= i < order.links@.len() && #[trigger] order.links@[i].rel@ == "capture"@
                && order.links@[i].href@ == h@ && forall|j: int|
                0 <= j < i ==> #[trigger] order.links@[j].rel@ != "capture"@,
        r is None ==> forall|i: int|
            0 <= i < order.links@.len() ==> #[trigger] order.links@[i].rel@ != "capture"@,
{
    lemma_first_href_is_first_match(order.links@, |rel: Seq<char>| is_capture_rel(rel));
}

/// The link of an order to itself is the `href` of its first link whose `rel` is exactly
/// `self`; there is none when no link has that `rel`.
pub proof fn law_self_url_is_first_self_link(order: Order, r: Option<&str>)
    requires
        r matches Some(h) ==> first_href(order.links@, |rel: Seq<char>| is_self_rel(rel)) == Some(
            h@,
        ),
        r is None ==> first_href(order.links@, |rel: Seq<char>| is_self_rel(rel)) is None,
    ensures
        r matches Some(h) ==> exists|i: int|
            0 <= i < order.links@.len() && #[trigger] order.links@[i].rel@ == "self"@
                && order.links@[i].href@ == h@ && forall|j: int|
                0 <= j < i ==> #[trigger] order.links@[j].rel@ != "self"@,
        r is None ==> forall|i: int|
            0 <= i < order.links@.len() ==> #[trigger] order.links@[i].rel@ != "self"@,
{
    lemma_first_href_is_first_match(order.links@, |rel: Seq<char>| is_self_rel(rel));
}

} // verus!
