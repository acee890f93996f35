//! The webhook event types that the client knows.

use vstd::prelude::*;

verus! {

pub const ORDER_APPROVED: &'static str = "CHECKOUT.ORDER.APPROVED";

pub const ORDER_COMPLETED: &'static str = "CHECKOUT.ORDER.COMPLETED";

pub const CAPTURE_COMPLETED: &'static str = "PAYMENT.CAPTURE.COMPLETED";

pub const CAPTURE_DENIED: &'static str = "PAYMENT.CAPTURE.DENIED";

pub const CAPTURE_PENDING: &'static str = "PAYMENT.CAPTURE.PENDING";

pub const CAPTURE_REFUNDED: &'static str = "PAYMENT.CAPTURE.REFUNDED";

pub const REFUND_COMPLETED: &'static str = "PAYMENT.REFUND.COMPLETED";

} // verus!
