use vstd::prelude::*;
use crate::text::{
    all_digits, i64_to_decimal, int_to_decimal, lemma_decimal_value_concat,
    lemma_nat_to_decimal_digits, lemma_nat_to_decimal_len, lemma_zero_pad_value, nat_to_decimal,
    signed_decimal_value, u64_to_decimal, zero_pad, zero_padded_decimal,
};

verus! {

/// Currencies accepted by the client.
#[derive(Debug, Clone, Copy, PartialEq, Eq, Hash, Structural)]
pub enum Currency {
    USD,
    EUR,
    GBP,
    TRY,
    JPY,
}

impl Currency {
    /// ISO 4217 code of the currency.
    pub open spec fn code(self) -> Seq<char> {
        match self {
            Currency::USD => "USD"@,
            Currency::EUR => "EUR"@,
            Currency::GBP => "GBP"@,
            Currency::TRY => "TRY"@,
            Currency::JPY => "JPY"@,
        }
    }

    /// Number of digits after the decimal point in amounts of this currency.
    pub open spec fn spec_decimal_places(&self) -> u8 {
        if self is JPY { 0 } else { 2 }
    }

    pub fn as_str(&self) -> (r: &'static str)
        ensures r@ == self.code(),
    {
        match self {
            Currency::USD => "USD",
            Currency::EUR => "EUR",
            Currency::GBP => "GBP",
            Currency::TRY => "TRY",
            Currency::JPY => "JPY",
        }
    }

    #[verifier::when_used_as_spec(spec_decimal_places)]
    pub fn decimal_places(&self) -> (r: u8)
        ensures r == self.spec_decimal_places(),
    {
        if matches!(self, Currency::JPY) {
            0
        } else {
            2
        }
    }
}

/// Integer division rounded toward zero, as Rust's `/` on signed integers.
pub open spec fn trunc_div(a: int, b: int) -> int {
    if a >= 0 {
        a / b
    } else {
        -((-a) / b)
    }
}

/// `10` to the power `d`.
pub open spec fn pow10(d: nat) -> int {
    vstd::arithmetic::power::pow(10, d)
}

/// The text of an amount of `units` minor units in a currency with `decimals` decimal
/// places: the whole part (rounded toward zero, signed), then for a currency with
/// decimals a `.` and the remaining minor units padded to `decimals` digits.
pub open spec fn minor_units_text(units: int, decimals: nat) -> Seq<char> {
    if decimals == 0 {
        int_to_decimal(units)
    } else {
        int_to_decimal(trunc_div(units, pow10(decimals))) + seq!['.'] + zero_pad(
            nat_to_decimal((if units < 0 { -units } else { units }) as nat % pow10(decimals) as nat),
            decimals,
        )
    }
}

/// The number of minor units that the amount text `s` denotes in a currency with `decimals`
/// decimal places: its digits read as one signed number once the decimal point (the
/// character before the last `decimals` ones) is taken out.
pub open spec fn denoted_minor_units(s: Seq<char>, decimals: nat) -> int {
    if decimals == 0 {
        signed_decimal_value(s)
    } else {
        signed_decimal_value(s.take(s.len() - decimals - 1) + s.skip(s.len() - decimals))
    }
}

/// Reading an amount back: the text of `units` minor units denotes `units` again, with the
/// decimal point `decimals` characters from the end. It fails for amounts strictly between
/// minus one whole unit and zero, whose text loses the sign (`-5` cents is written `0.05`).
pub proof fn lemma_minor_units_text_round_trip(units: int, decimals: nat)
    requires
        decimals == 0 || units >= 0 || units <= -pow10(decimals),
    ensures
        denoted_minor_units(minor_units_text(units, decimals), decimals) == units,
        decimals > 0 ==> minor_units_text(units, decimals)[
            minor_units_text(units, decimals).len() - decimals - 1
        ] == '.',
{
    let text = minor_units_text(units, decimals);
    if decimals == 0 {
        if units >= 0 {
            lemma_nat_to_decimal_digits(units as nat);
            assert(text[0] != '-');
        } else {
            lemma_nat_to_decimal_digits((-units) as nat);
            assert(text.drop_first() == nat_to_decimal((-units) as nat));
        }
    } else {
        let p = pow10(decimals);
        vstd::arithmetic::power::lemma_pow_positive(10, decimals);
        let mag: nat = (if units < 0 { -units } else { units }) as nat;
        let q: nat = mag / (p as nat);
        let f: nat = mag % (p as nat);
        let fd = nat_to_decimal(f);
        lemma_nat_to_decimal_len(f, decimals);
        lemma_nat_to_decimal_digits(f);
        lemma_nat_to_decimal_digits(q);
        let fp = zero_pad(fd, decimals);
        lemma_zero_pad_value(fd, decimals);
        assert(fp.len() == decimals);
        let w = int_to_decimal(trunc_div(units, p));
        assert(text == w + seq!['.'] + fp);
        assert(text.take(text.len() - decimals - 1) == w);
        assert(text.skip(text.len() - decimals) == fp);
        assert(text[text.len() - decimals - 1] == '.');
        lemma_decimal_value_concat(nat_to_decimal(q), fp);
        assert(mag == q * p + f) by (nonlinear_arith)
            requires
                q == mag / (p as nat),
                f == mag % (p as nat),
                p > 0,
        ;
        if units >= 0 {
            assert(trunc_div(units, p) == q);
            assert(w + fp == nat_to_decimal(q) + fp);
            assert((w + fp)[0] == nat_to_decimal(q)[0]);
            assert(all_digits(nat_to_decimal(q)));
        } else {
            assert(q >= 1) by (nonlinear_arith)
                requires
                    mag >= p,
                    p > 0,
                    q == mag / (p as nat),
            ;
            assert(trunc_div(units, p) == -(q as int));
            assert(w == seq!['-'] + nat_to_decimal(q));
            assert((w + fp).drop_first() == nat_to_decimal(q) + fp);
        }
    }
}

/// An amount of money as the PayPal API writes it.
#[derive(Debug, Clone)]
pub struct Money {
    pub currency_code: String,
    pub value: String,
}

impl Currency {
    /// The currency's code as an owned string (what `Display` writes).
    pub fn to_string(&self) -> (r: String)
        ensures
            r@ == self.code(),
    {
        String::from_str(self.as_str())
    }
}

fn scale_for(decimals: u8) -> (r: u64)
    requires
        decimals <= 2,
    ensures
        r == pow10(decimals as nat),
        r >= 1,
{
    reveal(vstd::arithmetic::power::pow);
    assert(pow10(0) == 1);
    assert(pow10(1) == 10 * pow10(0));
    assert(pow10(2) == 10 * pow10(1));
    if decimals == 0 {
        1
    } else if decimals == 1 {
        10
    } else {
        100
    }
}

impl Money {
    /// Money of `units` minor units (cents, or yen) of `currency`.
    pub fn from_minor_units(units: i64, currency: Currency) -> (r: Money)
        requires
            currency.decimal_places() == 0 || units != i64::MIN,
        ensures
            r.currency_code@ == currency.code(),
            r.value@ == minor_units_text(units as int, currency.decimal_places() as nat),
    {
        let value = Self::format_minor_units(units, currency);
        Money { currency_code: currency.to_string(), value }
    }

    /// Writes `units` minor units of `currency` as a decimal amount, e.g. 1234 cents
    /// as `"12.34"` and 987 yen as `"987"`.
    pub fn format_minor_units(units: i64, currency: Currency) -> (r: String)
        requires
            currency.decimal_places() == 0 || units != i64::MIN,
        ensures
            r@ == minor_units_text(units as int, currency.decimal_places() as nat),
    {
        let decimals = currency.decimal_places();
        if decimals == 0 {
            return i64_to_decimal(units);
        }
        let scale = scale_for(decimals);
        let magnitude: u64 = if units < 0 { (-units) as u64 } else { units as u64 };
        let whole = magnitude / scale;
        let fraction = magnitude % scale;
        let mut text = if units < 0 && whole > 0 {
            let mut t = String::from_str("-");
            let digits = u64_to_decimal(whole);
            t.append(digits.as_str());
            t
        } else {
            u64_to_decimal(whole)
        };
        proof {
            reveal_strlit("-");
            reveal_strlit(".");
        }
        text.append(".");
        let padded = zero_padded_decimal(fraction, decimals as usize);
        text.append(padded.as_str());
        text
    }
}

/// Every currency but the yen has two decimal places: money made of `units` minor units of
/// such a currency is written with its decimal point three characters from the end and
/// denotes `units` hundredths (for amounts that are not strictly between minus one whole
/// unit and zero, whose text loses the sign). Yen are written as a whole number of yen,
/// with no decimal point, that denotes `units`.
pub proof fn law_money_text_by_currency(units: i64, currency: Currency, m: Money)
    requires
        currency.decimal_places() == 0 || units != i64::MIN,
        m.currency_code@ == currency.code(),
        m.value@ == minor_units_text(units as int, currency.decimal_places() as nat),
    ensures
        currency !is JPY && (units >= 0 || units <= -100) ==> {
            &&& m.value@.len() >= 4
            &&& m.value@[m.value@.len() - 3] == '.'
            &&& denoted_minor_units(m.value@, 2) == units
        },
        currency is JPY ==> {
            &&& signed_decimal_value(m.value@) == units
            &&& forall|i: int| 0 <= i < m.value@.len() ==> m.value@[i] != '.'
        },
{
    let text = m.value@;
    if currency is JPY {
        lemma_minor_units_text_round_trip(units as int, 0);
        let n: nat = (if units < 0 { -units } else { units as int }) as nat;
        lemma_nat_to_decimal_digits(n);
        assert forall|i: int| 0 <= i < text.len() implies text[i] != '.' by {
            if units < 0 {
                assert(text == seq!['-'] + nat_to_decimal(n));
                if i > 0 {
                    assert(text[i] == nat_to_decimal(n)[i - 1]);
                }
            } else {
                assert(text == nat_to_decimal(n));
            }
        }
    } else if units >= 0 || units <= -100 {
        reveal(vstd::arithmetic::power::pow);
        assert(pow10(2) == 100) by {
            assert(pow10(0) == 1);
            assert(pow10(1) == 10);
        }
        lemma_minor_units_text_round_trip(units as int, 2);
        let w = int_to_decimal(trunc_div(units as int, 100));
        let mag: nat = (if units < 0 { -units } else { units as int }) as nat;
        lemma_nat_to_decimal_digits(mag / 100);
        lemma_nat_to_decimal_len(mag % 100, 2);
        lemma_zero_pad_value(nat_to_decimal(mag % 100), 2);
        assert(w.len() >= 1);
        assert(text.len() == w.len() + 3);
    }
}

/// A link of a resource returned by the API (`rel` names its role).
#[derive(Debug, Clone)]
pub struct Link {
    pub href: String,
    pub rel: String,
    pub method: Option<String>,
}

/// When the payment is taken: at capture or after an authorization.
#[derive(Debug, Clone, Copy, PartialEq, Eq, Structural)]
pub enum Intent {
    Capture,
    Authorize,
}

impl Default for Intent {
    fn default() -> (r: Intent)
        ensures
            r == Intent::Capture,
    {
        Intent::Capture
    }
}

/// The page the payer lands on at PayPal.
#[derive(Debug, Clone, Copy, PartialEq, Eq, Structural)]
pub enum LandingPage {
    Login,
    GuestCheckout,
    NoPreference,
}

impl Default for LandingPage {
    fn default() -> (r: LandingPage)
        ensures
            r == LandingPage::Login,
    {
        LandingPage::Login
    }
}

/// The label of the button that the payer sees at PayPal.
#[derive(Debug, Clone, Copy, PartialEq, Eq, Structural)]
pub enum UserAction {
    Continue,
    PayNow,
}

impl Default for UserAction {
    fn default() -> (r: UserAction)
        ensures
            r == UserAction::Continue,
    {
        UserAction::Continue
    }
}

/// Where the shipping address comes from.
#[derive(Debug, Clone, Copy, PartialEq, Eq, Structural)]
pub enum ShippingPreference {
    GetFromFile,
    NoShipping,
    SetProvidedAddress,
}

impl Default for ShippingPreference {
    fn default() -> (r: ShippingPreference)
        ensures
            r == ShippingPreference::GetFromFile,
    {
        ShippingPreference::GetFromFile
    }
}

} // verus!
