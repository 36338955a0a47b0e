//! Client library for the UniRate currency-exchange and VAT API.
//!
//! The library decides what is sent to the API (paths, query parameters,
//! headers) and how each answer is read (status classification, error
//! messages); the HTTP transport itself is driven by the caller.

pub mod client;
pub mod endpoints;
pub mod error;
pub mod http;
pub mod models;
pub mod text;

pub use client::{ClientBuilder, HttpSettings, UniRateClient};
pub use endpoints::{classify_response, upper, ApiRequest};
pub use error::UniRateError;
pub use models::{HistoricalLimit, HistoricalLimitsResponse};

use vstd::prelude::*;

verus! {

/// Default UniRate API base URL.
pub const DEFAULT_BASE_URL: &'static str = "https://api.unirateapi.com";

/// Crate version, sent as the `User-Agent` suffix.
pub const VERSION: &'static str = "0.1.0";

} // verus!
