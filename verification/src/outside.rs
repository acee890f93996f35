//! Types of outside crates that the library's values carry.

use vstd::prelude::*;
use reqwest::Error as HttpFailure;
use serde_json::Error as JsonFailure;
use serde_json::Value as JsonValue;
use std::time::Instant as MonotonicInstant;

verus! {

/// `reqwest::Error`: a failed HTTP exchange, carried in `Error::Http`.
#[verifier::external_type_specification]
#[verifier::external_body]
pub struct ExHttpFailure(HttpFailure);

/// `serde_json::Error`: a body that is not the expected JSON, carried in `Error::Json`.
#[verifier::external_type_specification]
#[verifier::external_body]
pub struct ExJsonFailure(JsonFailure);

/// `serde_json::Value`: a JSON value, carried as a webhook's resource.
#[verifier::external_type_specification]
#[verifier::external_body]
pub struct ExJsonValue(JsonValue);

/// `std::time::Instant`: the moment an access token expires.
#[verifier::external_type_specification]
#[verifier::external_body]
pub struct ExMonotonicInstant(MonotonicInstant);

} // verus!
