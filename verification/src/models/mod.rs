pub mod common;
pub mod order;
pub mod webhook;

pub use common::{Currency, Intent, LandingPage, Link, Money, ShippingPreference, UserAction};
pub use order::{
    AmountBreakdown, ApplicationContext, Authorization, AuthorizationStatus, Capture,
    CaptureOrderRequest, CaptureStatus, CreateOrderRequest, ExperienceContext, Item,
    ItemCategory, Order, OrderStatus, PaymentCollection, PaymentSource, PayPalWallet,
    PurchaseAmount, PurchaseUnit, Refund, RefundRequest, RefundStatus, Shipping, ShippingName,
    Address,
};
pub use webhook::{
    ParsedWebhookEvent, VerifyWebhookResponse, WebhookEvent, WebhookHeaders, WebhookLink,
};
