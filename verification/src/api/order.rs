use vstd::prelude::*;
use crate::error::Error;
use crate::models::common::{
    denoted_minor_units, lemma_minor_units_text_round_trip, minor_units_text, pow10, Currency,
    Intent, LandingPage, Money, ShippingPreference, UserAction,
};
use crate::models::order::{
    AmountBreakdown, ApplicationContext, CreateOrderRequest, Item, ItemCategory, PurchaseAmount,
    PurchaseUnit,
};
use crate::text::{
    lemma_parse_u32_round_trip, nat_to_decimal, parse_u32, spec_parse_u32, u64_to_decimal,
};

verus! {

/// A decimal amount rounded to the two precisions that currencies use: to whole units
/// (`whole`) and to hundredths (`hundredths`), each rounded half away from zero.
#[derive(Debug, Clone, Copy, PartialEq, Eq, Structural)]
pub struct ScaledAmount {
    pub whole: i64,
    pub hundredths: i64,
}

impl ScaledAmount {
    /// The amount in minor units of a currency with `decimals` decimal places.
    pub open spec fn spec_in_minor_units(&self, decimals: u8) -> i64 {
        if decimals == 0 {
            self.whole
        } else {
            self.hundredths
        }
    }

    /// The amount in minor units of a currency with `decimals` decimal places; the amount is
    /// held at the two precisions that currencies use, none or two decimals.
    #[verifier::when_used_as_spec(spec_in_minor_units)]
    pub fn in_minor_units(&self, decimals: u8) -> (r: i64)
        requires
            decimals == 0 || decimals == 2,
        ensures
            r == self.spec_in_minor_units(decimals),
    {
        if decimals == 0 {
            self.whole
        } else {
            self.hundredths
        }
    }

    /// The amount zero.
    pub fn zero() -> (r: ScaledAmount)
        ensures
            r.whole == 0 && r.hundredths == 0,
    {
        ScaledAmount { whole: 0, hundredths: 0 }
    }
}

/// The total, in minor units, of `items` priced at `prices` (each price in minor units,
/// `None` where the unit amount could not be read), added to `acc`; or the message of the
/// first item that cannot be read: a quantity that is not a `u32`, then an unreadable price.
pub open spec fn items_total_from(
    items: Seq<Item>,
    prices: Seq<Option<ScaledAmount>>,
    decimals: u8,
    acc: int,
) -> Result<int, Seq<char>>
    decreases items.len(),
{
    if items.len() == 0 {
        Ok(acc)
    } else {
        match spec_parse_u32(items[0].quantity@) {
            None => Err("Invalid item quantity"@),
            Some(q) => match prices[0] {
                None => Err("Invalid item amount"@),
                Some(p) => items_total_from(
                    items.drop_first(),
                    prices.drop_first(),
                    decimals,
                    acc + p.spec_in_minor_units(decimals) * q,
                ),
            },
        }
    }
}

/// Whether summing the items from `acc` stays within `i64` at every step (each line's
/// amount and each running total), up to the first item that cannot be read.
pub open spec fn items_total_fits(
    items: Seq<Item>,
    prices: Seq<Option<ScaledAmount>>,
    decimals: u8,
    acc: int,
) -> bool
    decreases items.len(),
{
    if items.len() == 0 {
        true
    } else {
        match spec_parse_u32(items[0].quantity@) {
            None => true,
            Some(q) => match prices[0] {
                None => true,
                Some(p) => {
                    let line = p.spec_in_minor_units(decimals) * q;
                    &&& i64::MIN <= line <= i64::MAX
                    &&& i64::MIN <= acc + line <= i64::MAX
                    &&& items_total_fits(items.drop_first(), prices.drop_first(), decimals, acc + line)
                },
            },
        }
    }
}

/// Whether `m` is `units` minor units of `currency`, written as the API expects.
pub open spec fn money_of(m: Money, units: int, currency: Currency) -> bool {
    &&& m.currency_code@ == currency.code()
    &&& m.value@ == minor_units_text(units, currency.spec_decimal_places() as nat)
}

/// A breakdown part: present, as `units` of `currency`, exactly when `present`.
pub open spec fn part_of(m: Option<Money>, present: bool, units: int, currency: Currency) -> bool {
    if present {
        m matches Some(x) && money_of(x, units, currency)
    } else {
        m is None
    }
}

/// Builds the request that creates an order. Amounts are held as `ScaledAmount`s and read
/// in the minor units of the currency that the order has when it is built.
#[derive(Debug)]
pub struct OrderBuilder {
    pub intent: Intent,
    pub currency: Currency,
    pub amount: ScaledAmount,
    pub items: Vec<Item>,
    /// The price of each item, in step with `items`.
    pub item_prices: Vec<Option<ScaledAmount>>,
    pub description: Option<String>,
    pub custom_id: Option<String>,
    pub invoice_id: Option<String>,
    pub soft_descriptor: Option<String>,
    pub return_url: Option<String>,
    pub cancel_url: Option<String>,
    pub brand_name: Option<String>,
    pub locale: Option<String>,
    pub landing_page: LandingPage,
    pub shipping_preference: ShippingPreference,
    pub user_action: UserAction,
    pub shipping: ScaledAmount,
    pub tax: ScaledAmount,
    pub discount: ScaledAmount,
}

impl OrderBuilder {
    /// Every item has its price.
    pub open spec fn wf(&self) -> bool {
        self.items@.len() == self.item_prices@.len()
    }

    pub open spec fn decimals(&self) -> u8 {
        self.currency.spec_decimal_places()
    }

    /// The total of the items in minor units, or the message of the first unreadable item.
    pub open spec fn item_total(&self) -> Result<int, Seq<char>> {
        items_total_from(self.items@, self.item_prices@, self.decimals(), 0)
    }

    pub open spec fn shipping_units(&self) -> int {
        self.shipping.spec_in_minor_units(self.decimals()) as int
    }

    pub open spec fn tax_units(&self) -> int {
        self.tax.spec_in_minor_units(self.decimals()) as int
    }

    pub open spec fn discount_units(&self) -> int {
        self.discount.spec_in_minor_units(self.decimals()) as int
    }

    /// The amount of the order in minor units, given the items' total: with items, the items
    /// plus shipping and tax less the discount; without, the amount that was set.
    pub open spec fn final_units(&self, item_total: int) -> int {
        if self.items@.len() > 0 {
            item_total + self.shipping_units() + self.tax_units() - self.discount_units()
        } else {
            self.amount.spec_in_minor_units(self.decimals()) as int
        }
    }

    /// Building stays within `i64` and formats no `i64::MIN` in a currency with decimals.
    pub open spec fn can_build(&self) -> bool {
        &&& self.wf()
        &&& items_total_fits(self.items@, self.item_prices@, self.decimals(), 0)
        &&& (self.item_total() matches Ok(t) ==> {
            let a = t + self.shipping_units();
            let b = a + self.tax_units();
            let c = b - self.discount_units();
            &&& (self.items@.len() > 0 ==> {
                &&& i64::MIN <= a <= i64::MAX
                &&& i64::MIN <= b <= i64::MAX
                &&& i64::MIN <= c <= i64::MAX
                &&& (self.decimals() != 0 ==> t != i64::MIN)
            })
            &&& (self.decimals() != 0 ==> self.final_units(t) != i64::MIN)
        })
    }

    /// Whether `req` is the request that this builder makes when its items total `t`.
    pub open spec fn request_for(&self, t: int, req: CreateOrderRequest) -> bool {
        let c = self.currency;
        let has_items = self.items@.len() > 0;
        let pu = req.purchase_units@[0];
        &&& req.intent == self.intent
        &&& req.purchase_units@.len() == 1
        &&& req.payment_source is None
        &&& pu.reference_id is None
        &&& pu.description == self.description
        &&& pu.custom_id == self.custom_id
        &&& pu.invoice_id == self.invoice_id
        &&& pu.soft_descriptor == self.soft_descriptor
        &&& pu.shipping is None
        &&& pu.payments is None
        &&& pu.amount.currency_code@ == c.code()
        &&& pu.amount.value@ == minor_units_text(self.final_units(t), self.decimals() as nat)
        &&& (if has_items { pu.items matches Some(v) && v@ == self.items@ } else { pu.items is None })
        &&& (if has_items || self.shipping_units() > 0 || self.tax_units() > 0 || self.discount_units() > 0 {
            pu.amount.breakdown matches Some(bd)
                && part_of(bd.item_total, has_items, t, c)
                && part_of(bd.shipping, self.shipping_units() > 0, self.shipping_units(), c)
                && part_of(bd.tax_total, self.tax_units() > 0, self.tax_units(), c)
                && part_of(bd.discount, self.discount_units() > 0, self.discount_units(), c)
                && bd.handling is None && bd.insurance is None && bd.shipping_discount is None
        } else {
            pu.amount.breakdown is None
        })
        &&& req.application_context matches Some(ctx)
        &&& ctx.brand_name == self.brand_name
        &&& ctx.locale == self.locale
        &&& ctx.landing_page == Some(self.landing_page)
        &&& ctx.shipping_preference == Some(self.shipping_preference)
        &&& ctx.user_action == Some(self.user_action)
        &&& ctx.return_url == self.return_url
        &&& ctx.cancel_url == self.cancel_url
    }

    /// The total in minor units of `items` priced at `prices`, or the configuration error
    /// of the first item whose quantity or price cannot be read.
    pub fn compute_items_total_units(
        items: &[Item],
        prices: &[Option<ScaledAmount>],
        decimals: u8,
    ) -> (r: Result<i64, Error>)
        requires
            decimals == 0 || decimals == 2,
            items@.len() == prices@.len(),
            items_total_fits(items@, prices@, decimals, 0),
        ensures
            match items_total_from(items@, prices@, decimals, 0) {
                Ok(t) => r matches Ok(v) && v == t,
                Err(msg) => r matches Err(Error::Config(m)) && m@ == msg,
            },
    {
        let mut total: i64 = 0;
        let n = items.len();
        let mut i: usize = 0;
        assert(items@.skip(0) == items@);
        assert(prices@.skip(0) == prices@);
        while i < n
            invariant
                n == items@.len(),
                n == prices@.len(),
                i <= n,
                items_total_from(items@, prices@, decimals, 0) == items_total_from(
                    items@.skip(i as int),
                    prices@.skip(i as int),
                    decimals,
                    total as int,
                ),
                items_total_fits(items@.skip(i as int), prices@.skip(i as int), decimals, total as int),
                decimals == 0 || decimals == 2,
            decreases n - i,
        {
            let ghost rest_items = items@.skip(i as int);
            let ghost rest_prices = prices@.skip(i as int);
            assert(rest_items[0] == items@[i as int]);
            assert(rest_prices[0] == prices@[i as int]);
            assert(rest_items.drop_first() == items@.skip(i + 1));
            assert(rest_prices.drop_first() == prices@.skip(i + 1));
            let qty = match parse_u32(items[i].quantity.as_str()) {
                Some(q) => q,
                None => {
                    return Err(Error::config("Invalid item quantity"));
                },
            };
            let price = match prices[i] {
                Some(p) => p,
                None => {
                    return Err(Error::config("Invalid item amount"));
                },
            };
            let minor = price.in_minor_units(decimals);
            total = total + minor * (qty as i64);
            i += 1;
        }
        Ok(total)
    }
}

impl OrderBuilder {
    /// A builder for a USD order to capture, with no amount, no items, the login landing
    /// page, no shipping and the "pay now" button.
    pub fn new() -> (r: OrderBuilder)
        ensures
            r.wf(),
            r.intent == Intent::Capture,
            r.currency == Currency::USD,
            r.amount == (ScaledAmount { whole: 0, hundredths: 0 }),
            r.items@.len() == 0,
            items_readable(r.items@, r.item_prices@),
            r.description is None && r.custom_id is None && r.invoice_id is None,
            r.soft_descriptor is None && r.return_url is None && r.cancel_url is None,
            r.brand_name is None && r.locale is None,
            r.landing_page == LandingPage::Login,
            r.shipping_preference == ShippingPreference::NoShipping,
            r.user_action == UserAction::PayNow,
            r.shipping == (ScaledAmount { whole: 0, hundredths: 0 }),
            r.tax == (ScaledAmount { whole: 0, hundredths: 0 }),
            r.discount == (ScaledAmount { whole: 0, hundredths: 0 }),
    {
        OrderBuilder {
            intent: Intent::Capture,
            currency: Currency::USD,
            amount: ScaledAmount::zero(),
            items: Vec::new(),
            item_prices: Vec::new(),
            description: None,
            custom_id: None,
            invoice_id: None,
            soft_descriptor: None,
            return_url: None,
            cancel_url: None,
            brand_name: None,
            locale: None,
            landing_page: LandingPage::Login,
            shipping_preference: ShippingPreference::NoShipping,
            user_action: UserAction::PayNow,
            shipping: ScaledAmount::zero(),
            tax: ScaledAmount::zero(),
            discount: ScaledAmount::zero(),
        }
    }

    /// Builds the request. Fails with the configuration error of the first item whose
    /// quantity or price cannot be read; otherwise the request has one purchase unit whose
    /// amount is `final_units` in the order's currency, with a breakdown that lists the items'
    /// total (when there are items) and each of shipping, tax and discount that is above zero.
    pub fn build_request(self) -> (r: Result<CreateOrderRequest, Error>)
        requires
            self.can_build(),
        ensures
            match self.item_total() {
                Ok(t) => r matches Ok(req) && self.request_for(t, req),
                Err(msg) => r matches Err(Error::Config(m)) && m@ == msg,
            },
            items_readable(self.items@, self.item_prices@) ==> r is Ok,
    {
        proof {
            if items_readable(self.items@, self.item_prices@) {
                lemma_readable_items_total(self.items@, self.item_prices@, self.decimals(), 0);
            }
        }
        let decimals = self.currency.decimal_places();
        let item_total_units = match Self::compute_items_total_units(
            self.items.as_slice(),
            self.item_prices.as_slice(),
            decimals,
        ) {
            Ok(t) => t,
            Err(e) => {
                return Err(e);
            },
        };
        let shipping_units = self.shipping.in_minor_units(decimals);
        let tax_units = self.tax.in_minor_units(decimals);
        let discount_units = self.discount.in_minor_units(decimals);
        let has_items = self.items.len() > 0;

        let breakdown = if has_items || shipping_units > 0 || tax_units > 0 || discount_units > 0 {
            Some(
                AmountBreakdown {
                    item_total: if has_items {
                        Some(Money::from_minor_units(item_total_units, self.currency))
                    } else {
                        None
                    },
                    shipping: if shipping_units > 0 {
                        Some(Money::from_minor_units(shipping_units, self.currency))
                    } else {
                        None
                    },
                    tax_total: if tax_units > 0 {
                        Some(Money::from_minor_units(tax_units, self.currency))
                    } else {
                        None
                    },
                    discount: if discount_units > 0 {
                        Some(Money::from_minor_units(discount_units, self.currency))
                    } else {
                        None
                    },
                    handling: None,
                    insurance: None,
                    shipping_discount: None,
                },
            )
        } else {
            None
        };

        let final_units = if has_items {
            item_total_units + shipping_units + tax_units - discount_units
        } else {
            self.amount.in_minor_units(decimals)
        };

        let purchase_unit = PurchaseUnit {
            reference_id: None,
            description: self.description,
            custom_id: self.custom_id,
            invoice_id: self.invoice_id,
            soft_descriptor: self.soft_descriptor,
            amount: PurchaseAmount {
                currency_code: self.currency.to_string(),
                value: Money::format_minor_units(final_units, self.currency),
                breakdown,
            },
            items: if has_items {
                Some(self.items)
            } else {
                None
            },
            shipping: None,
            payments: None,
        };
        let mut purchase_units = Vec::new();
        purchase_units.push(purchase_unit);

        Ok(
            CreateOrderRequest {
                intent: self.intent,
                purchase_units,
                payment_source: None,
                application_context: Some(
                    ApplicationContext {
                        brand_name: self.brand_name,
                        locale: self.locale,
                        landing_page: Some(self.landing_page),
                        shipping_preference: Some(self.shipping_preference),
                        user_action: Some(self.user_action),
                        return_url: self.return_url,
                        cancel_url: self.cancel_url,
                    },
                ),
            },
        )
    }
}

/// Whether `item` is the line item named `name`, of `quantity` units at `unit_amount`, with
/// the given description, SKU and category and no tax.
pub open spec fn item_of(
    item: Item,
    name: Seq<char>,
    quantity: u32,
    unit_amount: Money,
    description: Option<String>,
    sku: Option<String>,
    category: Option<ItemCategory>,
) -> bool {
    &&& item.name@ == name
    &&& item.quantity@ == nat_to_decimal(quantity as nat)
    &&& item.unit_amount == unit_amount
    &&& item.description == description
    &&& item.sku == sku
    &&& item.category == category
    &&& item.tax is None
}

impl OrderBuilder {
    /// Sets the amount (used when there are no items) and the currency of the order.
    pub fn amount(self, amount: ScaledAmount, currency: Currency) -> (r: OrderBuilder)
        ensures
            r == (OrderBuilder { amount, currency, ..self }),
    {
        OrderBuilder { amount, currency, ..self }
    }

    /// Sets whether the payment is captured or authorized.
    pub fn intent(self, intent: Intent) -> (r: OrderBuilder)
        ensures
            r == (OrderBuilder { intent: intent, ..self }),
    {
        OrderBuilder { intent: intent, ..self }
    }

    /// Adds a line item of `quantity` units at `unit_amount`; `unit_price` is the unit
    /// amount read back as a number.
    pub fn item(
        self,
        name: &str,
        quantity: u32,
        unit_amount: Money,
        unit_price: ScaledAmount,
    ) -> (r: OrderBuilder)
        requires
            self.wf(),
        ensures
            r.wf(),
            r == (OrderBuilder { items: r.items, item_prices: r.item_prices, ..self }),
            r.items@.len() == self.items@.len() + 1,
            r.items@.drop_last() == self.items@,
            r.item_prices@ == self.item_prices@.push(Some(unit_price)),
            items_readable(self.items@, self.item_prices@) ==> items_readable(r.items@, r.item_prices@),
            item_of(r.items@.last(), name@, quantity, unit_amount, None, None, None),
            spec_parse_u32(r.items@.last().quantity@) == Some(quantity),
    {
        self.item_detailed(name, quantity, unit_amount, unit_price, None, None, None)
    }

    /// Adds a line item with a description, a SKU and a category.
    pub fn item_detailed(
        self,
        name: &str,
        quantity: u32,
        unit_amount: Money,
        unit_price: ScaledAmount,
        description: Option<String>,
        sku: Option<String>,
        category: Option<ItemCategory>,
    ) -> (r: OrderBuilder)
        requires
            self.wf(),
        ensures
            r.wf(),
            r == (OrderBuilder { items: r.items, item_prices: r.item_prices, ..self }),
            r.items@.len() == self.items@.len() + 1,
            r.items@.drop_last() == self.items@,
            r.item_prices@ == self.item_prices@.push(Some(unit_price)),
            items_readable(self.items@, self.item_prices@) ==> items_readable(r.items@, r.item_prices@),
            item_of(r.items@.last(), name@, quantity, unit_amount, description, sku, category),
            spec_parse_u32(r.items@.last().quantity@) == Some(quantity),
    {
        proof {
            lemma_parse_u32_round_trip(quantity);
        }
        let mut builder = self;
        let item = Item {
            name: String::from_str(name),
            quantity: u64_to_decimal(quantity as u64),
            unit_amount,
            description,
            sku,
            category,
            tax: None,
        };
        builder.items.push(item);
        builder.item_prices.push(Some(unit_price));
        assert(builder.items@.drop_last() == self.items@);
        proof {
            if items_readable(self.items@, self.item_prices@) {
                assert forall|i: int| 0 <= i < builder.items@.len() implies (#[trigger] spec_parse_u32(
                    builder.items@[i].quantity@,
                )) is Some by {
                    if i < self.items@.len() {
                        assert(builder.items@[i] == self.items@[i]);
                    }
                }
                assert forall|i: int| 0 <= i < builder.item_prices@.len() implies (
                #[trigger] builder.item_prices@[i]) is Some by {
                    if i < self.item_prices@.len() {
                        assert(builder.item_prices@[i] == self.item_prices@[i]);
                    }
                }
            }
        }
        builder
    }

    /// Sets the description of the purchase.
    pub fn description(self, description: &str) -> (r: OrderBuilder)
        ensures
            r == (OrderBuilder { description: r.description, ..self }),
            r.description matches Some(v) && v@ == description@,
    {
        OrderBuilder { description: Some(String::from_str(description)), ..self }
    }

    /// Sets the merchant's own reference for the purchase.
    pub fn custom_id(self, custom_id: &str) -> (r: OrderBuilder)
        ensures
            r == (OrderBuilder { custom_id: r.custom_id, ..self }),
            r.custom_id matches Some(v) && v@ == custom_id@,
    {
        OrderBuilder { custom_id: Some(String::from_str(custom_id)), ..self }
    }

    /// Sets the invoice number of the purchase.
    pub fn invoice_id(self, invoice_id: &str) -> (r: OrderBuilder)
        ensures
            r == (OrderBuilder { invoice_id: r.invoice_id, ..self }),
            r.invoice_id matches Some(v) && v@ == invoice_id@,
    {
        OrderBuilder { invoice_id: Some(String::from_str(invoice_id)), ..self }
    }

    /// Sets the text on the payer's card statement.
    pub fn soft_descriptor(self, descriptor: &str) -> (r: OrderBuilder)
        ensures
            r == (OrderBuilder { soft_descriptor: r.soft_descriptor, ..self }),
            r.soft_descriptor matches Some(v) && v@ == descriptor@,
    {
        OrderBuilder { soft_descriptor: Some(String::from_str(descriptor)), ..self }
    }

    /// Sets where the payer goes after approving.
    pub fn return_url(self, url: &str) -> (r: OrderBuilder)
        ensures
            r == (OrderBuilder { return_url: r.return_url, ..self }),
            r.return_url matches Some(v) && v@ == url@,
    {
        OrderBuilder { return_url: Some(String::from_str(url)), ..self }
    }

    /// Sets where the payer goes after cancelling.
    pub fn cancel_url(self, url: &str) -> (r: OrderBuilder)
        ensures
            r == (OrderBuilder { cancel_url: r.cancel_url, ..self }),
            r.cancel_url matches Some(v) && v@ == url@,
    {
        OrderBuilder { cancel_url: Some(String::from_str(url)), ..self }
    }

    /// Sets both the return and the cancel address.
    pub fn urls(self, return_url: &str, cancel_url: &str) -> (r: OrderBuilder)
        ensures
            r == (OrderBuilder { return_url: r.return_url, cancel_url: r.cancel_url, ..self }),
            r.return_url matches Some(v) && v@ == return_url@,
            r.cancel_url matches Some(v) && v@ == cancel_url@,
    {
        self.return_url(return_url).cancel_url(cancel_url)
    }

    /// Sets the brand name shown at PayPal.
    pub fn brand_name(self, name: &str) -> (r: OrderBuilder)
        ensures
            r == (OrderBuilder { brand_name: r.brand_name, ..self }),
            r.brand_name matches Some(v) && v@ == name@,
    {
        OrderBuilder { brand_name: Some(String::from_str(name)), ..self }
    }

    /// Sets the locale of the pages at PayPal.
    pub fn locale(self, locale: &str) -> (r: OrderBuilder)
        ensures
            r == (OrderBuilder { locale: r.locale, ..self }),
            r.locale matches Some(v) && v@ == locale@,
    {
        OrderBuilder { locale: Some(String::from_str(locale)), ..self }
    }

    /// Sets the page the payer lands on.
    pub fn landing_page(self, landing_page: LandingPage) -> (r: OrderBuilder)
        ensures
            r == (OrderBuilder { landing_page: landing_page, ..self }),
    {
        OrderBuilder { landing_page: landing_page, ..self }
    }

    /// Sets where the shipping address comes from.
    pub fn shipping_preference(self, preference: ShippingPreference) -> (r: OrderBuilder)
        ensures
            r == (OrderBuilder { shipping_preference: preference, ..self }),
    {
        OrderBuilder { shipping_preference: preference, ..self }
    }

    /// Sets the label of the payer's button.
    pub fn user_action(self, action: UserAction) -> (r: OrderBuilder)
        ensures
            r == (OrderBuilder { user_action: action, ..self }),
    {
        OrderBuilder { user_action: action, ..self }
    }

    /// Sets the shipping cost.
    pub fn shipping(self, amount: ScaledAmount) -> (r: OrderBuilder)
        ensures
            r == (OrderBuilder { shipping: amount, ..self }),
    {
        OrderBuilder { shipping: amount, ..self }
    }

    /// Sets the tax.
    pub fn tax(self, amount: ScaledAmount) -> (r: OrderBuilder)
        ensures
            r == (OrderBuilder { tax: amount, ..self }),
    {
        OrderBuilder { tax: amount, ..self }
    }

    /// Sets the discount.
    pub fn discount(self, amount: ScaledAmount) -> (r: OrderBuilder)
        ensures
            r == (OrderBuilder { discount: amount, ..self }),
    {
        OrderBuilder { discount: amount, ..self }
    }

    /// Takes the shipping address from the payer's PayPal account.
    pub fn require_shipping(self) -> (r: OrderBuilder)
        ensures
            r == (OrderBuilder { shipping_preference: ShippingPreference::GetFromFile, ..self }),
    {
        OrderBuilder { shipping_preference: ShippingPreference::GetFromFile, ..self }
    }

    /// Ships nothing.
    pub fn digital_goods(self) -> (r: OrderBuilder)
        ensures
            r == (OrderBuilder { shipping_preference: ShippingPreference::NoShipping, ..self }),
    {
        OrderBuilder { shipping_preference: ShippingPreference::NoShipping, ..self }
    }
}

/// Whether every item's quantity reads as a `u32` and every price is known.
pub open spec fn items_readable(items: Seq<Item>, prices: Seq<Option<ScaledAmount>>) -> bool {
    &&& items.len() == prices.len()
    &&& forall|i: int| 0 <= i < items.len() ==> (#[trigger] spec_parse_u32(items[i].quantity@)) is Some
    &&& forall|i: int| 0 <= i < prices.len() ==> (#[trigger] prices[i]) is Some
}

/// Items that can all be read always total: no configuration error comes of them.
pub proof fn lemma_readable_items_total(
    items: Seq<Item>,
    prices: Seq<Option<ScaledAmount>>,
    decimals: u8,
    acc: int,
)
    requires
        items_readable(items, prices),
    ensures
        items_total_from(items, prices, decimals, acc) is Ok,
    decreases items.len(),
{
    if items.len() > 0 {
        assert(spec_parse_u32(items[0].quantity@) is Some);
        assert(prices[0] is Some);
        let q = spec_parse_u32(items[0].quantity@)->0;
        let p = prices[0]->0;
        assert(items_readable(items.drop_first(), prices.drop_first())) by {
            assert forall|i: int| 0 <= i < items.drop_first().len() implies (#[trigger] spec_parse_u32(
                items.drop_first()[i].quantity@,
            )) is Some by {
                assert(items.drop_first()[i] == items[i + 1]);
            }
            assert forall|i: int| 0 <= i < prices.drop_first().len() implies (
            #[trigger] prices.drop_first()[i]) is Some by {
                assert(prices.drop_first()[i] == prices[i + 1]);
            }
        }
        lemma_readable_items_total(
            items.drop_first(),
            prices.drop_first(),
            decimals,
            acc + p.spec_in_minor_units(decimals) * q,
        );
    }
}

/// Whether `r` is what `OrderBuilder::compute_items_total_units` gives for `items` priced at
/// `prices` in a currency with `decimals` decimal places.
pub open spec fn is_items_total_result(
    items: Seq<Item>,
    prices: Seq<Option<ScaledAmount>>,
    decimals: u8,
    r: Result<i64, Error>,
) -> bool {
    match items_total_from(items, prices, decimals, 0) {
        Ok(t) => r matches Ok(v) && v == t,
        Err(msg) => r matches Err(Error::Config(m)) && m@ == msg,
    }
}

/// Starting the items' total from `start + extra` gives `extra` more than starting from
/// `start`, and the same message when an item cannot be read.
pub proof fn lemma_items_total_shift(
    items: Seq<Item>,
    prices: Seq<Option<ScaledAmount>>,
    d: u8,
    start: int,
    extra: int,
)
    ensures
        items_total_from(items, prices, d, start + extra) == match items_total_from(
            items,
            prices,
            d,
            start,
        ) {
            Ok(x) => Ok(x + extra),
            Err(m) => Err::<int, Seq<char>>(m),
        },
    decreases items.len(),
{
    if items.len() > 0 {
        if let Some(qty) = spec_parse_u32(items[0].quantity@) {
            if let Some(price) = prices[0] {
                let step = price.spec_in_minor_units(d) * qty;
                lemma_items_total_shift(items.drop_first(), prices.drop_first(), d, start + step, extra);
                assert(start + extra + step == start + step + extra);
            }
        }
    }
}

/// Totalling two lists of items put together totals the first, then goes on with the
/// second from the first one's total; an unreadable item in the first stops it there.
pub proof fn lemma_items_total_concat(
    first_items: Seq<Item>,
    first_prices: Seq<Option<ScaledAmount>>,
    second_items: Seq<Item>,
    second_prices: Seq<Option<ScaledAmount>>,
    d: u8,
    start: int,
)
    requires
        first_items.len() == first_prices.len(),
    ensures
        items_total_from(first_items + second_items, first_prices + second_prices, d, start)
            == match items_total_from(first_items, first_prices, d, start) {
            Ok(x) => items_total_from(second_items, second_prices, d, x),
            Err(m) => Err::<int, Seq<char>>(m),
        },
    decreases first_items.len(),
{
    let all_items = first_items + second_items;
    let all_prices = first_prices + second_prices;
    if first_items.len() == 0 {
        assert(all_items == second_items);
        assert(all_prices == second_prices);
    } else {
        assert(all_items[0] == first_items[0]);
        assert(all_prices[0] == first_prices[0]);
        assert(all_items.drop_first() == first_items.drop_first() + second_items);
        assert(all_prices.drop_first() == first_prices.drop_first() + second_prices);
        if let Some(qty) = spec_parse_u32(first_items[0].quantity@) {
            if let Some(price) = first_prices[0] {
                lemma_items_total_concat(
                    first_items.drop_first(),
                    first_prices.drop_first(),
                    second_items,
                    second_prices,
                    d,
                    start + price.spec_in_minor_units(d) * qty,
                );
            }
        }
    }
}

/// The total of one item is its quantity times its unit price in units of `10^-decimals`:
/// the price's whole-unit rounding with no decimal places, its hundredths with two. An item
/// whose quantity is not a `u32` gives the configuration error `Invalid item quantity`, and
/// one without a price `Invalid item amount`.
pub proof fn law_items_total_of_one_item(
    item: Item,
    price: Option<ScaledAmount>,
    decimals: u8,
    r: Result<i64, Error>,
)
    requires
        decimals == 0 || decimals == 2,
        is_items_total_result(seq![item], seq![price], decimals, r),
    ensures
        spec_parse_u32(item.quantity@) matches Some(q) ==> (price matches Some(p) ==> (r matches Ok(
            v,
        ) && v == (if decimals == 0 { p.whole } else { p.hundredths }) * q)),
        spec_parse_u32(item.quantity@) is None ==> (r matches Err(Error::Config(m)) && m@
            == "Invalid item quantity"@),
        spec_parse_u32(item.quantity@) is Some && price is None ==> (r matches Err(
            Error::Config(m),
        ) && m@ == "Invalid item amount"@),
{
    let items = seq![item];
    let prices = seq![price];
    assert(items[0] == item);
    assert(prices[0] == price);
    if let Some(q) = spec_parse_u32(item.quantity@) {
        if let Some(p) = price {
            let line = p.spec_in_minor_units(decimals) * q;
            assert(items.drop_first().len() == 0);
            assert(items_total_from(items.drop_first(), prices.drop_first(), decimals, 0 + line)
                == Ok::<int, Seq<char>>(0 + line));
        }
    }
}

/// Totals add up: the items of two lists put together total the sum of the two lists'
/// totals. When the first list has an item that cannot be read, the whole fails with its
/// error; when only the second has one, with the second's error.
pub proof fn law_items_total_of_concatenation(
    first_items: Seq<Item>,
    first_prices: Seq<Option<ScaledAmount>>,
    second_items: Seq<Item>,
    second_prices: Seq<Option<ScaledAmount>>,
    decimals: u8,
    first: Result<i64, Error>,
    second: Result<i64, Error>,
    both: Result<i64, Error>,
)
    requires
        first_items.len() == first_prices.len(),
        is_items_total_result(first_items, first_prices, decimals, first),
        is_items_total_result(second_items, second_prices, decimals, second),
        is_items_total_result(
            first_items + second_items,
            first_prices + second_prices,
            decimals,
            both,
        ),
    ensures
        first matches Ok(x) ==> (second matches Ok(y) ==> (both matches Ok(z) && z == x + y)),
        first matches Err(Error::Config(m)) ==> both matches Err(Error::Config(n)) && n@ == m@,
        first is Ok ==> (second matches Err(Error::Config(m)) ==> (both matches Err(
            Error::Config(n),
        ) && n@ == m@)),
{
    lemma_items_total_concat(first_items, first_prices, second_items, second_prices, decimals, 0);
    if let Ok(x) = items_total_from(first_items, first_prices, decimals, 0) {
        lemma_items_total_shift(second_items, second_prices, decimals, 0, x);
        assert(0 + x == x);
    }
}

/// The minor units that an optional breakdown part denotes (none when it is absent).
pub open spec fn part_units(m: Option<Money>, decimals: nat) -> int {
    match m {
        Some(x) => denoted_minor_units(x.value@, decimals),
        None => 0,
    }
}

/// The amount of a built order is the sum of its breakdown: the items' total plus shipping
/// and tax, less the discount. It needs shipping, tax and discount that are not negative
/// (a negative one is left out of the breakdown but counted in the amount) and a total and
/// items' total that are not strictly between minus one whole unit and zero (whose text
/// loses the sign).
pub proof fn lemma_amount_is_breakdown_sum(b: OrderBuilder, t: int, req: CreateOrderRequest)
    requires
        b.request_for(t, req),
        b.items@.len() > 0,
        b.shipping_units() >= 0,
        b.tax_units() >= 0,
        b.discount_units() >= 0,
        t >= 0 || t <= -pow10(b.decimals() as nat),
        b.final_units(t) >= 0 || b.final_units(t) <= -pow10(b.decimals() as nat),
    ensures
        req.purchase_units@[0].amount.breakdown matches Some(bd) && denoted_minor_units(
            req.purchase_units@[0].amount.value@,
            b.decimals() as nat,
        ) == part_units(bd.item_total, b.decimals() as nat) + part_units(
            bd.shipping,
            b.decimals() as nat,
        ) + part_units(bd.tax_total, b.decimals() as nat) - part_units(
            bd.discount,
            b.decimals() as nat,
        ),
{
    let d = b.decimals() as nat;
    let bd = req.purchase_units@[0].amount.breakdown->0;
    assert(d == 0 || d == 2);
    lemma_minor_units_text_round_trip(b.final_units(t), d);
    lemma_minor_units_text_round_trip(t, d);
    if b.shipping_units() > 0 {
        lemma_minor_units_text_round_trip(b.shipping_units(), d);
    }
    if b.tax_units() > 0 {
        lemma_minor_units_text_round_trip(b.tax_units(), d);
    }
    if b.discount_units() > 0 {
        lemma_minor_units_text_round_trip(b.discount_units(), d);
    }
}

/// Whether a breakdown lists the part that `part` picks as text denoting `units` minor units
/// of a currency with `decimals` decimal places when `units` is above zero, and leaves the
/// part out when it is not.
pub open spec fn lists_part(
    breakdown: Option<AmountBreakdown>,
    part: spec_fn(AmountBreakdown) -> Option<Money>,
    units: int,
    decimals: nat,
) -> bool {
    if units > 0 {
        breakdown matches Some(bd) && part(bd) matches Some(m) && denoted_minor_units(m.value@, decimals)
            == units
    } else {
        breakdown matches Some(bd) ==> part(bd) is None
    }
}

/// A yen order is built in whole yen. Its shipping, tax and discount are the whole-yen
/// roundings of what was set: each above zero is listed in the breakdown as text denoting
/// it, and each at zero or below is left out. With items, the breakdown lists the items'
/// total `t` and the amount denotes `t` plus shipping and tax less the discount; without,
/// the amount denotes the whole-yen amount that was set.
pub proof fn law_yen_order_in_whole_yen(b: OrderBuilder, t: int, req: CreateOrderRequest)
    requires
        b.currency is JPY,
        b.item_total() == Ok::<int, Seq<char>>(t),
        b.request_for(t, req),
    ensures
        lists_part(
            req.purchase_units@[0].amount.breakdown,
            |bd: AmountBreakdown| bd.shipping,
            b.shipping.whole as int,
            0,
        ),
        lists_part(
            req.purchase_units@[0].amount.breakdown,
            |bd: AmountBreakdown| bd.tax_total,
            b.tax.whole as int,
            0,
        ),
        lists_part(
            req.purchase_units@[0].amount.breakdown,
            |bd: AmountBreakdown| bd.discount,
            b.discount.whole as int,
            0,
        ),
        b.items@.len() > 0 ==> (req.purchase_units@[0].amount.breakdown matches Some(bd)
            && bd.item_total matches Some(m) && denoted_minor_units(m.value@, 0) == t),
        b.items@.len() > 0 ==> denoted_minor_units(req.purchase_units@[0].amount.value@, 0) == t
            + b.shipping.whole + b.tax.whole - b.discount.whole,
        b.items@.len() == 0 ==> denoted_minor_units(req.purchase_units@[0].amount.value@, 0)
            == b.amount.whole,
{
    assert(b.decimals() == 0);
    lemma_minor_units_text_round_trip(b.final_units(t), 0);
    lemma_minor_units_text_round_trip(t, 0);
    lemma_minor_units_text_round_trip(b.shipping.whole as int, 0);
    lemma_minor_units_text_round_trip(b.tax.whole as int, 0);
    lemma_minor_units_text_round_trip(b.discount.whole as int, 0);
}

/// An order in any currency but the yen is built in hundredths. Its shipping, tax and
/// discount are the hundredths of what was set: each above zero is listed in the breakdown
/// as text denoting it, and each at zero or below is left out. With items, the breakdown
/// lists the items' total `t` and the amount denotes `t` plus shipping and tax less the
/// discount; without, the amount denotes the hundredths of the amount that was set. (A
/// total strictly between minus one whole unit and zero is written without its sign, so
/// those are left out.)
pub proof fn law_two_decimal_order_in_hundredths(b: OrderBuilder, t: int, req: CreateOrderRequest)
    requires
        b.currency !is JPY,
        b.item_total() == Ok::<int, Seq<char>>(t),
        b.request_for(t, req),
    ensures
        lists_part(
            req.purchase_units@[0].amount.breakdown,
            |bd: AmountBreakdown| bd.shipping,
            b.shipping.hundredths as int,
            2,
        ),
        lists_part(
            req.purchase_units@[0].amount.breakdown,
            |bd: AmountBreakdown| bd.tax_total,
            b.tax.hundredths as int,
            2,
        ),
        lists_part(
            req.purchase_units@[0].amount.breakdown,
            |bd: AmountBreakdown| bd.discount,
            b.discount.hundredths as int,
            2,
        ),
        b.items@.len() > 0 && (t >= 0 || t <= -100) ==> (req.purchase_units@[0].amount.breakdown matches Some(
            bd,
        ) && bd.item_total matches Some(m) && denoted_minor_units(m.value@, 2) == t),
        b.items@.len() > 0 && (t + b.shipping.hundredths + b.tax.hundredths - b.discount.hundredths
            >= 0 || t + b.shipping.hundredths + b.tax.hundredths - b.discount.hundredths <= -100)
            ==> denoted_minor_units(req.purchase_units@[0].amount.value@, 2) == t
            + b.shipping.hundredths + b.tax.hundredths - b.discount.hundredths,
        b.items@.len() == 0 && (b.amount.hundredths >= 0 || b.amount.hundredths <= -100)
            ==> denoted_minor_units(req.purchase_units@[0].amount.value@, 2) == b.amount.hundredths,
{
    assert(b.decimals() == 2);
    reveal(vstd::arithmetic::power::pow);
    assert(pow10(2) == 100) by {
        assert(pow10(0) == 1);
        assert(pow10(1) == 10);
    }
    let total = b.final_units(t);
    if total >= 0 || total <= -100 {
        lemma_minor_units_text_round_trip(total, 2);
    }
    if t >= 0 || t <= -100 {
        lemma_minor_units_text_round_trip(t, 2);
    }
    if b.shipping.hundredths > 0 {
        lemma_minor_units_text_round_trip(b.shipping.hundredths as int, 2);
    }
    if b.tax.hundredths > 0 {
        lemma_minor_units_text_round_trip(b.tax.hundredths as int, 2);
    }
    if b.discount.hundredths > 0 {
        lemma_minor_units_text_round_trip(b.discount.hundredths as int, 2);
    }
}

} // verus!
