//! Response models of the structured endpoints that carry no rates: the
//! historical coverage of each currency.

use std::collections::HashMap;

use vstd::prelude::*;

verus! {

/// Historical-data coverage window for a single currency.
#[derive(Debug, Clone, PartialEq, Eq)]
pub struct HistoricalLimit {
    /// Earliest date (`YYYY-MM-DD`) for which data is available.
    pub earliest_date: String,
    /// Latest date (`YYYY-MM-DD`) for which data is available.
    pub latest_date: String,
}

/// Answer of the historical-coverage endpoint.
#[derive(Debug, Clone, PartialEq, Eq)]
pub struct HistoricalLimitsResponse {
    /// Total number of currencies with historical coverage.
    pub total_currencies: u32,
    /// Per-currency coverage details, keyed by ISO-4217 code.
    pub currencies: HashMap<String, HistoricalLimit>,
}

} // verus!
