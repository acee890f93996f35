//! PayPal REST API client: the orders, amounts, refunds and webhook notifications that
//! it builds and reads, with their contracts.

pub mod api;
pub mod client;
pub mod error;
pub mod models;
pub mod outside;
pub mod prelude;
pub mod text;

pub use client::Environment;
pub use error::{Error, Result};
pub use models::common::Currency;
pub use models::order::{Capture, Item, ItemCategory, Order, OrderStatus, Refund};
pub use models::webhook::{ParsedWebhookEvent, WebhookEvent, WebhookHeaders};
