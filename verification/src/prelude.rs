//! The items that most users of the library need.

pub use crate::client::Environment;
pub use crate::error::{Error, Result};
pub use crate::models::common::{Currency, Intent, LandingPage, Money, ShippingPreference, UserAction};
pub use crate::models::order::{
    Capture, CaptureStatus, Item, ItemCategory, Order, OrderStatus, Refund, RefundStatus,
};
pub use crate::models::webhook::{event_types, ParsedWebhookEvent, WebhookEvent, WebhookHeaders};
