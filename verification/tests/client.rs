use std::collections::HashMap;
use std::time::Duration;

use unirate_api::client::{default_timeout, user_agent, ACCEPT_JSON, DEFAULT_TIMEOUT_SECS};
use unirate_api::{
    ClientBuilder, HistoricalLimit, HistoricalLimitsResponse, UniRateClient, DEFAULT_BASE_URL,
    VERSION,
};

#[test]
fn new_client_uses_default_base_url() {
    let c = UniRateClient::new("your-api-key").expect("client builds");
    assert_eq!(c.api_key(), "your-api-key");
    assert_eq!(c.base_url(), "https://api.unirateapi.com");
    assert_eq!(DEFAULT_BASE_URL, "https://api.unirateapi.com");
    let s = c.http_settings().as_ref().expect("a built client records its settings");
    assert_eq!(s.timeout, Duration::from_secs(30));
    assert_eq!(s.accept, "application/json");
    assert_eq!(s.user_agent, "unirate-rust/0.1.0");
}

#[test]
fn builder_keeps_key_and_trims_trailing_slashes() {
    let c = UniRateClient::builder("k")
        .base_url("http://localhost:8080///")
        .timeout(Duration::from_secs(5))
        .build()
        .expect("client builds");
    assert_eq!(c.api_key(), "k");
    assert_eq!(c.base_url(), "http://localhost:8080");
    let s = c.http_settings().as_ref().expect("a built client records its settings");
    assert_eq!(s.timeout, Duration::from_secs(5));
    assert_eq!(s.accept, "application/json");
    assert_eq!(s.user_agent, format!("unirate-rust/{}", VERSION));
}

#[test]
fn trailing_slash_does_not_change_request_url() {
    let a = ClientBuilder::new("k").base_url("http://h/").build().expect("builds");
    let b = ClientBuilder::new("k").base_url("http://h").build().expect("builds");
    assert_eq!(a.base_url(), b.base_url());
    assert_eq!(a.rate_request("usd", "eur").url, "http://h/api/rates");
    assert_eq!(b.rate_request("usd", "eur").url, "http://h/api/rates");
}

#[test]
fn base_url_of_slashes_only_becomes_empty() {
    let c = UniRateClient::builder("k").base_url("///").build().expect("builds");
    assert_eq!(c.base_url(), "");
}

#[test]
fn supplied_http_client_is_used_and_build_succeeds() {
    let http = reqwest::Client::new();
    let c = UniRateClient::builder("k")
        .http_client(http)
        .timeout(Duration::from_secs(1))
        .base_url("http://x/")
        .build()
        .expect("builds with a supplied client");
    assert_eq!(c.base_url(), "http://x");
    assert!(c.http_settings().is_none());
    let _ = c.http();
}

#[test]
fn clone_keeps_key_and_base_url() {
    let c = UniRateClient::builder("abc").base_url("http://y/").build().expect("builds");
    let d = c.clone();
    assert_eq!(d.api_key(), "abc");
    assert_eq!(
        d.http_settings().as_ref().map(|s| s.timeout),
        c.http_settings().as_ref().map(|s| s.timeout)
    );
    assert_eq!(d.base_url(), "http://y");
}

#[test]
fn default_timeout_is_thirty_seconds() {
    assert_eq!(DEFAULT_TIMEOUT_SECS, 30);
    assert_eq!(default_timeout(), Duration::from_secs(30));
}

#[test]
fn user_agent_names_the_crate_version() {
    assert_eq!(user_agent(), format!("unirate-rust/{}", VERSION));
    assert_eq!(ACCEPT_JSON, "application/json");
}

#[test]
fn historical_limits_model_holds_per_currency_windows() {
    let mut currencies = HashMap::new();
    currencies.insert(
        "USD".to_string(),
        HistoricalLimit {
            earliest_date: "1999-01-01".to_string(),
            latest_date: "2026-04-20".to_string(),
        },
    );
    let limits = HistoricalLimitsResponse { total_currencies: 1, currencies };
    assert_eq!(limits.total_currencies, 1);
    assert_eq!(limits.currencies.get("USD").unwrap().earliest_date, "1999-01-01");
    assert_eq!(limits.clone(), limits);
}

#[test]
fn finish_assembles_client_or_hands_back_error() {
    let c = ClientBuilder::new("k")
        .base_url("http://z//")
        .finish(Ok(reqwest::Client::new()), None)
        .expect("a client gives a client");
    assert_eq!(c.api_key(), "k");
    assert_eq!(c.base_url(), "http://z");
    let err = reqwest::Client::new()
        .get("not a url")
        .build()
        .expect_err("an invalid URL is refused");
    let text = format!("{}", err);
    match ClientBuilder::new("k").finish(Err(err), None) {
        Err(e) => assert_eq!(format!("{}", e), text),
        Ok(_) => panic!("an error is handed back"),
    }
}
